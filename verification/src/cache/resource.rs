//! Which entity kinds the cache is allowed to store.
use vstd::prelude::*;
use vstd::string::*;

verus! {

/// A set of entity kinds the cache stores.
///
/// Clearing a flag is a hard guarantee that nothing of that kind is ever stored, not merely
/// that it is not read back. The default is [`ResourceType::all`].
#[derive(Clone, Copy, Debug, PartialEq, Eq, Hash, PartialOrd, Ord, Structural)]
pub struct ResourceType(u32);

/// Every bit that names a kind.
pub const ALL_BITS: u32 = 0x1f;

/// The bit of room documents.
pub const ROOM_BIT: u32 = 1;

/// The bit of user documents.
pub const USER_BIT: u32 = 2;

/// The bit of subscription documents.
pub const SUBSCRIPTION_BIT: u32 = 4;

/// The bit of message documents.
pub const MESSAGE_BIT: u32 = 8;

/// The bit of the logged-in user.
pub const CURRENT_USER_BIT: u32 = 16;

/// Whether `bit` is one of the five kinds.
pub open spec fn is_kind(bit: u32) -> bool {
    bit == ROOM_BIT || bit == USER_BIT || bit == SUBSCRIPTION_BIT || bit == MESSAGE_BIT || bit
        == CURRENT_USER_BIT
}

impl ResourceType {
    /// The raw bits.
    pub closed spec fn mask(self) -> u32 {
        self.0
    }

    /// Whether the kind with the given bit is in the set.
    pub open spec fn has(self, bit: u32) -> bool {
        self.mask() & bit != 0
    }

    /// Whether the set holds known kinds only.
    pub open spec fn wf(self) -> bool {
        self.mask() & !ALL_BITS == 0
    }

    /// Room documents, and the name to id index.
    pub fn room() -> (r: ResourceType)
        ensures
            r.mask() == ROOM_BIT,
            r.wf(),
    {
        assert(1u32 & !0x1fu32 == 0) by (bit_vector);
        ResourceType(ROOM_BIT)
    }

    /// User documents, and the username to id index.
    pub fn user() -> (r: ResourceType)
        ensures
            r.mask() == USER_BIT,
            r.wf(),
    {
        assert(2u32 & !0x1fu32 == 0) by (bit_vector);
        ResourceType(USER_BIT)
    }

    /// Subscription documents.
    pub fn subscription() -> (r: ResourceType)
        ensures
            r.mask() == SUBSCRIPTION_BIT,
            r.wf(),
    {
        assert(4u32 & !0x1fu32 == 0) by (bit_vector);
        ResourceType(SUBSCRIPTION_BIT)
    }

    /// Message documents, and the per-room ring.
    pub fn message() -> (r: ResourceType)
        ensures
            r.mask() == MESSAGE_BIT,
            r.wf(),
    {
        assert(8u32 & !0x1fu32 == 0) by (bit_vector);
        ResourceType(MESSAGE_BIT)
    }

    /// The logged-in user, stored separately from the users and never evicted.
    pub fn current_user() -> (r: ResourceType)
        ensures
            r.mask() == CURRENT_USER_BIT,
            r.wf(),
    {
        assert(16u32 & !0x1fu32 == 0) by (bit_vector);
        ResourceType(CURRENT_USER_BIT)
    }

    /// Every kind this library knows about.
    pub fn all() -> (r: ResourceType)
        ensures
            r.mask() == ALL_BITS,
            r.wf(),
    {
        assert(0x1fu32 & !0x1fu32 == 0) by (bit_vector);
        ResourceType(ALL_BITS)
    }

    /// The empty set: a cache that stores nothing at all.
    pub fn empty() -> (r: ResourceType)
        ensures
            r.mask() == 0,
            r.wf(),
    {
        assert(0u32 & !0x1fu32 == 0) by (bit_vector);
        ResourceType(0)
    }

    /// The raw bits.
    pub fn bits(self) -> (r: u32)
        ensures
            r == self.mask(),
    {
        self.0
    }

    /// Builds a set from raw bits, dropping any bit this version does not define.
    pub fn from_bits_truncate(bits: u32) -> (r: ResourceType)
        ensures
            r.mask() == bits & ALL_BITS,
            r.wf(),
    {
        assert(bits & 0x1f & !0x1fu32 == 0) by (bit_vector);
        ResourceType(bits & ALL_BITS)
    }

    /// Whether every kind in `other` is in `self`.
    ///
    /// An empty `other` is contained in everything, including the empty set.
    pub fn contains(self, other: ResourceType) -> (r: bool)
        ensures
            r == (self.mask() & other.mask() == other.mask()),
    {
        self.0 & other.0 == other.0
    }

    /// Whether `self` and `other` share at least one kind.
    pub fn intersects(self, other: ResourceType) -> (r: bool)
        ensures
            r == (self.mask() & other.mask() != 0),
    {
        self.0 & other.0 != 0
    }

    /// Whether the set is empty.
    pub fn is_empty(self) -> (r: bool)
        ensures
            r == (self.mask() == 0),
    {
        self.0 == 0
    }

    /// The kinds in either set.
    pub fn union(self, other: ResourceType) -> (r: ResourceType)
        ensures
            r.mask() == self.mask() | other.mask(),
    {
        ResourceType(self.0 | other.0)
    }

    /// The kinds in both sets.
    pub fn intersection(self, other: ResourceType) -> (r: ResourceType)
        ensures
            r.mask() == self.mask() & other.mask(),
    {
        ResourceType(self.0 & other.0)
    }

    /// The kinds in `self` that are not in `other`.
    pub fn difference(self, other: ResourceType) -> (r: ResourceType)
        ensures
            r.mask() == self.mask() & !other.mask(),
    {
        ResourceType(self.0 & !other.0)
    }

    /// The kinds not in `self`.
    pub fn complement(self) -> (r: ResourceType)
        ensures
            r.mask() == !self.mask() & ALL_BITS,
            r.wf(),
    {
        let m: u32 = self.0;
        assert(!m & 0x1f & !0x1fu32 == 0) by (bit_vector);
        ResourceType(!m & ALL_BITS)
    }

    /// The names of the kinds in the set, in declaration order, joined by ` | `.
    pub open spec fn names(self) -> Seq<char> {
        joined(
            joined(
                joined(
                    joined(
                        joined(seq![], self.has(ROOM_BIT), "ROOM"@),
                        self.has(USER_BIT),
                        "USER"@,
                    ),
                    self.has(SUBSCRIPTION_BIT),
                    "SUBSCRIPTION"@,
                ),
                self.has(MESSAGE_BIT),
                "MESSAGE"@,
            ),
            self.has(CURRENT_USER_BIT),
            "CURRENT_USER"@,
        )
    }

    /// What a log line shows of the set.
    pub open spec fn shown(self) -> Seq<char> {
        "ResourceType("@ + (if self.mask() == 0 {
            "empty"@
        } else {
            self.names()
        }) + ")"@
    }

    /// The set as its log line shows it: `ResourceType(ROOM | MESSAGE)`.
    pub fn debug_text(self) -> (r: String)
        ensures
            r@ == self.shown(),
    {
        let mut out = "ResourceType(".to_owned();
        if self.is_empty() {
            out.append("empty");
        } else {
            let m: u32 = self.0;
            assert((m & 1 != 0) == (m & 1 == 1)) by (bit_vector);
            assert((m & 2 != 0) == (m & 2 == 2)) by (bit_vector);
            assert((m & 4 != 0) == (m & 4 == 4)) by (bit_vector);
            assert((m & 8 != 0) == (m & 8 == 8)) by (bit_vector);
            assert((m & 16 != 0) == (m & 16 == 16)) by (bit_vector);
            let mut names = String::new();
            if self.contains(ResourceType::room()) {
                join(&mut names, "ROOM");
            }
            if self.contains(ResourceType::user()) {
                join(&mut names, "USER");
            }
            if self.contains(ResourceType::subscription()) {
                join(&mut names, "SUBSCRIPTION");
            }
            if self.contains(ResourceType::message()) {
                join(&mut names, "MESSAGE");
            }
            if self.contains(ResourceType::current_user()) {
                join(&mut names, "CURRENT_USER");
            }
            out.append(names.as_str());
        }
        out.append(")");
        out
    }
}

/// `list` with `name` appended after a separator, where the name is `present`.
pub open spec fn joined(list: Seq<char>, present: bool, name: Seq<char>) -> Seq<char> {
    if !present {
        list
    } else if list.len() == 0 {
        name
    } else {
        list + " | "@ + name
    }
}

fn join(list: &mut String, name: &str)
    ensures
        final(list)@ == joined(old(list)@, true, name@),
{
    if !list.as_str().is_empty() {
        list.append(" | ");
    }
    list.append(name);
}

impl Default for ResourceType {
    /// [`ResourceType::all`]: caching everything is the useful default, and the flags exist
    /// to narrow it.
    fn default() -> (r: ResourceType)
        ensures
            r.mask() == ALL_BITS,
    {
        ResourceType::all()
    }
}

impl core::ops::BitOr for ResourceType {
    type Output = ResourceType;

    fn bitor(self, rhs: ResourceType) -> (r: ResourceType) {
        self.union(rhs)
    }
}

impl vstd::std_specs::ops::BitOrSpecImpl for ResourceType {
    open spec fn obeys_bitor_spec() -> bool {
        true
    }

    open spec fn bitor_req(self, rhs: ResourceType) -> bool {
        true
    }

    closed spec fn bitor_spec(self, rhs: ResourceType) -> ResourceType {
        ResourceType(self.0 | rhs.0)
    }
}

impl core::ops::BitOrAssign for ResourceType {
    fn bitor_assign(&mut self, rhs: ResourceType)
        ensures
            final(self).mask() == old(self).mask() | rhs.mask(),
    {
        *self = ResourceType(self.0 | rhs.0);
    }
}

impl core::ops::BitAnd for ResourceType {
    type Output = ResourceType;

    fn bitand(self, rhs: ResourceType) -> (r: ResourceType) {
        self.intersection(rhs)
    }
}

impl vstd::std_specs::ops::BitAndSpecImpl for ResourceType {
    open spec fn obeys_bitand_spec() -> bool {
        true
    }

    open spec fn bitand_req(self, rhs: ResourceType) -> bool {
        true
    }

    closed spec fn bitand_spec(self, rhs: ResourceType) -> ResourceType {
        ResourceType(self.0 & rhs.0)
    }
}

impl core::ops::BitAndAssign for ResourceType {
    fn bitand_assign(&mut self, rhs: ResourceType)
        ensures
            final(self).mask() == old(self).mask() & rhs.mask(),
    {
        *self = ResourceType(self.0 & rhs.0);
    }
}

impl core::ops::BitXor for ResourceType {
    type Output = ResourceType;

    fn bitxor(self, rhs: ResourceType) -> (r: ResourceType) {
        ResourceType(self.0 ^ rhs.0)
    }
}

impl vstd::std_specs::ops::BitXorSpecImpl for ResourceType {
    open spec fn obeys_bitxor_spec() -> bool {
        true
    }

    open spec fn bitxor_req(self, rhs: ResourceType) -> bool {
        true
    }

    closed spec fn bitxor_spec(self, rhs: ResourceType) -> ResourceType {
        ResourceType(self.0 ^ rhs.0)
    }
}

impl core::ops::BitXorAssign for ResourceType {
    fn bitxor_assign(&mut self, rhs: ResourceType)
        ensures
            final(self).mask() == old(self).mask() ^ rhs.mask(),
    {
        *self = ResourceType(self.0 ^ rhs.0);
    }
}

impl core::ops::Sub for ResourceType {
    type Output = ResourceType;

    fn sub(self, rhs: ResourceType) -> (r: ResourceType) {
        self.difference(rhs)
    }
}

impl vstd::std_specs::ops::SubSpecImpl for ResourceType {
    open spec fn obeys_sub_spec() -> bool {
        true
    }

    open spec fn sub_req(self, rhs: ResourceType) -> bool {
        true
    }

    closed spec fn sub_spec(self, rhs: ResourceType) -> ResourceType {
        ResourceType(self.0 & !rhs.0)
    }
}

impl core::ops::SubAssign for ResourceType {
    fn sub_assign(&mut self, rhs: ResourceType)
        ensures
            final(self).mask() == old(self).mask() & !rhs.mask(),
    {
        *self = ResourceType(self.0 & !rhs.0);
    }
}

impl core::ops::Not for ResourceType {
    type Output = ResourceType;

    fn not(self) -> (r: ResourceType) {
        self.complement()
    }
}

impl vstd::std_specs::ops::NotSpecImpl for ResourceType {
    open spec fn obeys_not_spec() -> bool {
        true
    }

    open spec fn not_req(self) -> bool {
        true
    }

    closed spec fn not_spec(self) -> ResourceType {
        ResourceType(!self.0 & ALL_BITS)
    }
}

/// The operators are the set operations: `|` is union, `&` is intersection, `^` is the
/// symmetric difference, `-` is the difference and `!` is the complement.
pub proof fn law_operators_are_set_operations(a: ResourceType, b: ResourceType)
    ensures
        vstd::std_specs::ops::BitOrSpec::bitor_spec(a, b).mask() == a.mask() | b.mask(),
        vstd::std_specs::ops::BitAndSpec::bitand_spec(a, b).mask() == a.mask() & b.mask(),
        vstd::std_specs::ops::BitXorSpec::bitxor_spec(a, b).mask() == a.mask() ^ b.mask(),
        vstd::std_specs::ops::SubSpec::sub_spec(a, b).mask() == a.mask() & !b.mask(),
        vstd::std_specs::ops::NotSpec::not_spec(a).mask() == !a.mask() & ALL_BITS,
{
}

/// Membership of each kind follows the set operations, for every kind the library defines.
pub proof fn law_membership(a: u32, b: u32, bit: u32)
    requires
        is_kind(bit),
    ensures
        ((a | b) & bit != 0) == (a & bit != 0 || b & bit != 0),
        ((a & b) & bit != 0) == (a & bit != 0 && b & bit != 0),
        ((a & !b) & bit != 0) == (a & bit != 0 && !(b & bit != 0)),
        ((!a & ALL_BITS) & bit != 0) == !(a & bit != 0),
        (ALL_BITS & bit) != 0,
{
    assert(bit == 1 || bit == 2 || bit == 4 || bit == 8 || bit == 16 ==> (((a | b) & bit != 0) == (a
        & bit != 0 || b & bit != 0) && ((a & b) & bit != 0) == (a & bit != 0 && b & bit != 0) && ((a
        & !b) & bit != 0) == (a & bit != 0 && !(b & bit != 0)) && ((!a & 0x1f) & bit != 0) == !(a
        & bit != 0) && (0x1f & bit) != 0)) by (bit_vector);
}

/// A set contains another exactly when it has each kind that the other has.
pub proof fn law_contains_is_subset(a: ResourceType, b: ResourceType)
    requires
        b.wf(),
    ensures
        (a.mask() & b.mask() == b.mask()) <==> (forall|bit: u32|
            is_kind(bit) && b.has(bit) ==> #[trigger] a.has(bit)),
{
    let x = a.mask();
    let y = b.mask();
    assert(y & !0x1fu32 == 0 ==> ((x & y == y) <==> ((y & 1 != 0 ==> x & 1 != 0) && (y & 2 != 0
        ==> x & 2 != 0) && (y & 4 != 0 ==> x & 4 != 0) && (y & 8 != 0 ==> x & 8 != 0) && (y & 16
        != 0 ==> x & 16 != 0)))) by (bit_vector);
    if forall|bit: u32| is_kind(bit) && b.has(bit) ==> #[trigger] a.has(bit) {
        assert(b.has(1) ==> a.has(1));
        assert(b.has(2) ==> a.has(2));
        assert(b.has(4) ==> a.has(4));
        assert(b.has(8) ==> a.has(8));
        assert(b.has(16) ==> a.has(16));
    }
}

/// Sets of known kinds stay sets of known kinds under every operation, and complementing
/// twice gives the set back.
pub proof fn law_closed(a: u32, b: u32)
    requires
        a & !ALL_BITS == 0,
        b & !ALL_BITS == 0,
    ensures
        (a | b) & !ALL_BITS == 0,
        (a & b) & !ALL_BITS == 0,
        (a ^ b) & !ALL_BITS == 0,
        (a & !b) & !ALL_BITS == 0,
        !(!a & ALL_BITS) & ALL_BITS == a,
{
    assert(a & !0x1fu32 == 0 && b & !0x1fu32 == 0 ==> (a | b) & !0x1fu32 == 0 && (a & b) & !0x1fu32
        == 0 && (a ^ b) & !0x1fu32 == 0 && (a & !b) & !0x1fu32 == 0 && !(!a & 0x1fu32) & 0x1fu32
        == a) by (bit_vector);
}

/// Two sets with the same flags are the same set.
pub proof fn law_equal_masks_are_equal_sets(a: ResourceType, b: ResourceType)
    ensures
        a == b <==> a.mask() == b.mask(),
{
}

/// A kind is one bit, and kinds are apart.
pub proof fn law_each_kind_is_its_own_bit()
    ensures
        ROOM_BIT == 1,
        USER_BIT == 2,
        SUBSCRIPTION_BIT == 4,
        MESSAGE_BIT == 8,
        CURRENT_USER_BIT == 16,
        ALL_BITS == 31,
{
}

/// Kinds are shown by their names, with bars between, and the lack of any by a word.
pub proof fn law_how_kinds_are_shown(r: ResourceType, list: Seq<char>, name: Seq<char>)
    ensures
        r.mask() == 0 ==> r.shown() == "ResourceType("@ + "empty"@ + ")"@,
        r.mask() != 0 ==> r.shown() == "ResourceType("@ + r.names() + ")"@,
        joined(list, false, name) == list,
        joined(Seq::empty(), true, name) == name,
        list.len() > 0 ==> joined(list, true, name) == list + " | "@ + name,
        r.names() == ({
            let rooms = joined(Seq::empty(), r.mask() & ROOM_BIT != 0, "ROOM"@);
            let users = joined(rooms, r.mask() & USER_BIT != 0, "USER"@);
            let subscriptions = joined(
                users,
                r.mask() & SUBSCRIPTION_BIT != 0,
                "SUBSCRIPTION"@,
            );
            let messages = joined(subscriptions, r.mask() & MESSAGE_BIT != 0, "MESSAGE"@);
            joined(messages, r.mask() & CURRENT_USER_BIT != 0, "CURRENT_USER"@)
        }),
{
}

} // verus!
