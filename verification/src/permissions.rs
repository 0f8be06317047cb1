//! The permission evaluator and the relationship resolver.
//!
//! A caller loads the acting user and, as the request demands, a channel
//! and/or a guild, builds a [`PermissionCalculator`] over them and asks it
//! for the effective capability bitfield.  The evaluator is a pure query:
//! absent context contributes nothing, and it never fails.

use vstd::prelude::*;

use crate::channel::{Channel, ChannelView};
use crate::guild::{Guild, GuildView};
use crate::text::{contains_id, str_eq};
use crate::user::{RelationshipStatus, User, UserRelationship, UserRelationshipView, UserView};

verus! {

/// Computed relationship between two users.  It is derived per query from
/// the subject's stored entries and never persisted: `SELF` when subject and
/// target are the same identity, `NONE` when no entry exists.
#[allow(non_camel_case_types)]
#[derive(Clone, Copy, Debug, PartialEq, Eq, Structural)]
pub enum Relationship {
    Friend,
    Outgoing,
    Incoming,
    Blocked,
    BlockedOther,
    NONE,
    SELF,
}

impl Relationship {
    /// Numeric code a computed relationship is reported with.
    pub open spec fn spec_code(self) -> u8 {
        match self {
            Relationship::Friend => 0,
            Relationship::Outgoing => 1,
            Relationship::Incoming => 2,
            Relationship::Blocked => 3,
            Relationship::BlockedOther => 4,
            Relationship::NONE => 5,
            Relationship::SELF => 6,
        }
    }

    /// Numeric code a computed relationship is reported with.
    pub fn code(&self) -> (c: u8)
        ensures
            c == self.spec_code(),
    {
        match self {
            Relationship::Friend => 0,
            Relationship::Outgoing => 1,
            Relationship::Incoming => 2,
            Relationship::Blocked => 3,
            Relationship::BlockedOther => 4,
            Relationship::NONE => 5,
            Relationship::SELF => 6,
        }
    }
}

/// Capability to enter and observe the context at all.
pub const ACCESS: u32 = 1;

/// Capability to create invites to the context.
pub const CREATE_INVITE: u32 = 2;

/// Capability to kick members.
pub const KICK_MEMBERS: u32 = 4;

/// Capability to ban members.
pub const BAN_MEMBERS: u32 = 8;

/// Capability to read messages.
pub const READ_MESSAGES: u32 = 16;

/// Capability to send messages.
pub const SEND_MESSAGES: u32 = 32;

/// Capability to delete or pin other users' messages.
pub const MANAGE_MESSAGES: u32 = 64;

/// Capability to edit channels.  Within direct-message and group channels
/// this position is read as [`INVITE_OTHERS`] instead.
pub const MANAGE_CHANNELS: u32 = 128;

/// Capability to edit the guild itself.
pub const MANAGE_SERVER: u32 = 256;

/// Capability to edit roles.
pub const MANAGE_ROLES: u32 = 512;

/// Capability to bring further users into a conversation.  It shares its
/// position with [`MANAGE_CHANNELS`]: the bit is read as channel management
/// in guild contexts and as inviting in direct and group conversations.
pub const INVITE_OTHERS: u32 = 128;

/// The fixed baseline granted to participants of a direct-message or group
/// conversation absent blocking: [`ACCESS`], [`READ_MESSAGES`],
/// [`SEND_MESSAGES`] and [`INVITE_OTHERS`] (see [`lemma_dm_baseline_bits`]).
pub const DM_PERMISSIONS: u32 = 177;

/// All bits set: unconditional owner-level access, short-circuiting every
/// other check.
pub const ALL_PERMISSIONS: u32 = u32::MAX;

/// One named capability.  The bit positions are fixed: any persisted or
/// transmitted bitfield uses this one layout.
#[derive(Clone, Copy, Debug, PartialEq, Eq, Structural)]
pub enum Permission {
    Access,
    CreateInvite,
    KickMembers,
    BanMembers,
    ReadMessages,
    SendMessages,
    ManageMessages,
    ManageChannels,
    ManageServer,
    ManageRoles,
    InviteOthers,
}

impl Permission {
    /// The single bit that encodes this capability.
    pub open spec fn spec_bit(self) -> u32 {
        match self {
            Permission::Access => ACCESS,
            Permission::CreateInvite => CREATE_INVITE,
            Permission::KickMembers => KICK_MEMBERS,
            Permission::BanMembers => BAN_MEMBERS,
            Permission::ReadMessages => READ_MESSAGES,
            Permission::SendMessages => SEND_MESSAGES,
            Permission::ManageMessages => MANAGE_MESSAGES,
            Permission::ManageChannels => MANAGE_CHANNELS,
            Permission::ManageServer => MANAGE_SERVER,
            Permission::ManageRoles => MANAGE_ROLES,
            Permission::InviteOthers => INVITE_OTHERS,
        }
    }

    /// The single bit that encodes this capability.
    pub fn bit(&self) -> (b: u32)
        ensures
            b == self.spec_bit(),
    {
        match self {
            Permission::Access => ACCESS,
            Permission::CreateInvite => CREATE_INVITE,
            Permission::KickMembers => KICK_MEMBERS,
            Permission::BanMembers => BAN_MEMBERS,
            Permission::ReadMessages => READ_MESSAGES,
            Permission::SendMessages => SEND_MESSAGES,
            Permission::ManageMessages => MANAGE_MESSAGES,
            Permission::ManageChannels => MANAGE_CHANNELS,
            Permission::ManageServer => MANAGE_SERVER,
            Permission::ManageRoles => MANAGE_ROLES,
            Permission::InviteOthers => INVITE_OTHERS,
        }
    }
}

/// The relationship an entry with the given stored status resolves to.
///
/// This is the direct, non-inverted mapping, the library's one canonical
/// convention: a query always reads the *subject's own* entries, so a stored
/// `Outgoing` means the subject sent the request and resolves to `Outgoing`.
/// The counterparty's perspective comes from the counterparty's own entries,
/// never from re-interpreting the subject's.
pub open spec fn status_relationship(s: RelationshipStatus) -> Relationship {
    match s {
        RelationshipStatus::Friend => Relationship::Friend,
        RelationshipStatus::Outgoing => Relationship::Outgoing,
        RelationshipStatus::Incoming => Relationship::Incoming,
        RelationshipStatus::Blocked => Relationship::Blocked,
        RelationshipStatus::BlockedOther => Relationship::BlockedOther,
    }
}

/// The relationship the first entry for `target` resolves to, or `NONE` when
/// no entry matches.
pub open spec fn lookup_relationship(entries: Seq<UserRelationshipView>, target: Seq<char>) -> Relationship
    decreases entries.len(),
{
    if entries.len() == 0 {
        Relationship::NONE
    } else if entries[0].id == target {
        status_relationship(entries[0].status)
    } else {
        lookup_relationship(entries.skip(1), target)
    }
}

/// The relationship of `user_id` toward `target_id`, derived from the
/// subject's entries: `SELF` for the same identity, checked before the
/// entries are consulted; `NONE` when the entries are absent or hold no
/// match.
pub open spec fn resolved_relationship(
    user_id: Seq<char>,
    target_id: Seq<char>,
    relationships: Option<Seq<UserRelationshipView>>,
) -> Relationship {
    if user_id == target_id {
        Relationship::SELF
    } else {
        match relationships {
            Some(entries) => lookup_relationship(entries, target_id),
            None => Relationship::NONE,
        }
    }
}

proof fn lemma_lookup_skip(entries: Seq<UserRelationshipView>, target: Seq<char>, i: int)
    requires
        0 <= i <= entries.len(),
        forall|j: int| 0 <= j < i ==> entries[j].id != target,
    ensures
        lookup_relationship(entries, target) == lookup_relationship(entries.skip(i), target),
    decreases i,
{
    if i > 0 {
        lemma_lookup_skip(entries, target, i - 1);
        let tail = entries.skip(i - 1);
        assert(tail.len() == entries.len() - i + 1);
        assert(tail[0] == entries[i - 1]);
        assert(tail[0].id != target);
        assert(tail.skip(1) =~= entries.skip(i));
        assert(lookup_relationship(tail, target) == lookup_relationship(tail.skip(1), target));
    } else {
        assert(entries.skip(0) =~= entries);
    }
}

/// Resolve the relationship of `user_id` toward `target_id` from the
/// subject's own entries.  No entry order matters; the first entry whose
/// identity equals `target_id` wins.
pub fn get_relationship_internal(
    user_id: &str,
    target_id: &str,
    relationships: &Option<Vec<UserRelationship>>,
) -> (r: Relationship)
    ensures
        r == resolved_relationship(user_id@, target_id@, relationships.deep_view()),
{
    if str_eq(user_id, target_id) {
        return Relationship::SELF;
    }

    if let Some(arr) = relationships {
        let ghost entries = arr.deep_view();
        let mut i: usize = 0;
        while i < arr.len()
            invariant
                0 <= i <= arr@.len(),
                entries == arr.deep_view(),
                relationships.deep_view() == Some(entries),
                user_id@ != target_id@,
                forall|j: int| 0 <= j < i ==> entries[j].id != target_id@,
            decreases arr@.len() - i,
        {
            let entry = &arr[i];
            if str_eq(entry.id.as_str(), target_id) {
                proof {
                    lemma_lookup_skip(entries, target_id@, i as int);
                    assert(entries[i as int] == arr@[i as int]@);
                    assert(entries.skip(i as int)[0] == entries[i as int]);
                    assert(entries.skip(i as int).len() > 0);
                    assert(lookup_relationship(entries.skip(i as int), target_id@)
                        == status_relationship(entries[i as int].status));
                }
                return match entry.status {
                    RelationshipStatus::Friend => Relationship::Friend,
                    RelationshipStatus::Outgoing => Relationship::Outgoing,
                    RelationshipStatus::Incoming => Relationship::Incoming,
                    RelationshipStatus::Blocked => Relationship::Blocked,
                    RelationshipStatus::BlockedOther => Relationship::BlockedOther,
                };
            }
            i += 1;
        }
        proof {
            lemma_lookup_skip(entries, target_id@, entries.len() as int);
        }
    }

    Relationship::NONE
}

/// Resolve the relationship between two loaded users from the subject's own
/// entries.
pub fn get_relationship(a: &User, b: &User) -> (r: Relationship)
    ensures
        r == resolved_relationship(a.id@, b.id@, a.relations.deep_view()),
{
    if str_eq(a.id.as_str(), b.id.as_str()) {
        return Relationship::SELF;
    }

    get_relationship_internal(a.id.as_str(), b.id.as_str(), &a.relations)
}

/// The status the counterparty stores when the subject stores `s`: requests
/// point the other way on the other side, blocking is mirrored by
/// being-blocked, friendship by friendship.
pub open spec fn complement_status(s: RelationshipStatus) -> RelationshipStatus {
    match s {
        RelationshipStatus::Friend => RelationshipStatus::Friend,
        RelationshipStatus::Outgoing => RelationshipStatus::Incoming,
        RelationshipStatus::Incoming => RelationshipStatus::Outgoing,
        RelationshipStatus::Blocked => RelationshipStatus::BlockedOther,
        RelationshipStatus::BlockedOther => RelationshipStatus::Blocked,
    }
}

/// The relationship the counterparty resolves when the subject resolves `r`.
pub open spec fn complement_relationship(r: Relationship) -> Relationship {
    match r {
        Relationship::Friend => Relationship::Friend,
        Relationship::Outgoing => Relationship::Incoming,
        Relationship::Incoming => Relationship::Outgoing,
        Relationship::Blocked => Relationship::BlockedOther,
        Relationship::BlockedOther => Relationship::Blocked,
        Relationship::NONE => Relationship::NONE,
        Relationship::SELF => Relationship::SELF,
    }
}

/// The status of the first entry for `target`, if any entry matches.
pub open spec fn first_status_for(
    entries: Seq<UserRelationshipView>,
    target: Seq<char>,
) -> Option<RelationshipStatus>
    decreases entries.len(),
{
    if entries.len() == 0 {
        None
    } else if entries[0].id == target {
        Some(entries[0].status)
    } else {
        first_status_for(entries.skip(1), target)
    }
}

/// Whether two users' stores are mutually consistent about each other:
/// either neither side holds an entry for the other, or both do and the
/// statuses are complementary.
pub open spec fn consistent_entries(
    a_id: Seq<char>,
    a_entries: Seq<UserRelationshipView>,
    b_id: Seq<char>,
    b_entries: Seq<UserRelationshipView>,
) -> bool {
    match (first_status_for(a_entries, b_id), first_status_for(b_entries, a_id)) {
        (Some(s), Some(t)) => t == complement_status(s),
        (None, None) => true,
        _ => false,
    }
}

proof fn lemma_lookup_first_status(entries: Seq<UserRelationshipView>, target: Seq<char>)
    ensures
        lookup_relationship(entries, target) == match first_status_for(entries, target) {
            Some(s) => status_relationship(s),
            None => Relationship::NONE,
        },
    decreases entries.len(),
{
    if entries.len() != 0 && entries[0].id != target {
        lemma_lookup_first_status(entries.skip(1), target);
    }
}

/// Resolution is symmetric in intent: on mutually consistent stores, what
/// one side resolves about the other is the exact complement of what the
/// other side resolves back — requests swap direction, blocking swaps with
/// being blocked, friendship and absence mirror themselves.
pub proof fn lemma_resolver_symmetry(
    a_id: Seq<char>,
    a_entries: Seq<UserRelationshipView>,
    b_id: Seq<char>,
    b_entries: Seq<UserRelationshipView>,
)
    requires
        a_id != b_id,
        consistent_entries(a_id, a_entries, b_id, b_entries),
    ensures
        resolved_relationship(b_id, a_id, Some(b_entries)) == complement_relationship(
            resolved_relationship(a_id, b_id, Some(a_entries)),
        ),
{
    lemma_lookup_first_status(a_entries, b_id);
    lemma_lookup_first_status(b_entries, a_id);
}

proof fn lemma_first_status_skip(entries: Seq<UserRelationshipView>, target: Seq<char>, i: int)
    requires
        0 <= i <= entries.len(),
        forall|j: int| 0 <= j < i ==> entries[j].id != target,
    ensures
        first_status_for(entries, target) == first_status_for(entries.skip(i), target),
    decreases i,
{
    if i > 0 {
        lemma_first_status_skip(entries, target, i - 1);
        let tail = entries.skip(i - 1);
        assert(tail.len() == entries.len() - i + 1);
        assert(tail[0] == entries[i - 1]);
        assert(tail[0].id != target);
        assert(tail.skip(1) =~= entries.skip(i));
        assert(first_status_for(tail, target) == first_status_for(tail.skip(1), target));
    } else {
        assert(entries.skip(0) =~= entries);
    }
}

/// The status of the first entry for `target`, if any entry matches.
pub fn find_status(entries: &Vec<UserRelationship>, target: &str) -> (r: Option<
    RelationshipStatus,
>)
    ensures
        r == first_status_for(entries.deep_view(), target@),
{
    let ghost ev = entries.deep_view();
    let mut i: usize = 0;
    while i < entries.len()
        invariant
            0 <= i <= entries@.len(),
            ev == entries.deep_view(),
            forall|j: int| 0 <= j < i ==> ev[j].id != target@,
        decreases entries@.len() - i,
    {
        let entry = &entries[i];
        if str_eq(entry.id.as_str(), target) {
            proof {
                lemma_first_status_skip(ev, target@, i as int);
                assert(ev[i as int] == entries@[i as int]@);
                assert(ev.skip(i as int)[0] == ev[i as int]);
            }
            return Some(entry.status);
        }
        i += 1;
    }
    proof {
        lemma_first_status_skip(ev, target@, ev.len() as int);
    }
    None
}

/// Whether two users' stores agree about each other (see
/// [`consistent_entries`]).  A `false` marks a data-integrity violation in
/// the store: relationship writes are meant to land on both sides.
pub fn relations_consistent(
    a_id: &str,
    a_entries: &Vec<UserRelationship>,
    b_id: &str,
    b_entries: &Vec<UserRelationship>,
) -> (r: bool)
    ensures
        r == consistent_entries(a_id@, a_entries.deep_view(), b_id@, b_entries.deep_view()),
{
    let status_a = find_status(a_entries, b_id);
    let status_b = find_status(b_entries, a_id);
    match (status_a, status_b) {
        (Some(s), Some(t)) => {
            let expected = match s {
                RelationshipStatus::Friend => RelationshipStatus::Friend,
                RelationshipStatus::Outgoing => RelationshipStatus::Incoming,
                RelationshipStatus::Incoming => RelationshipStatus::Outgoing,
                RelationshipStatus::Blocked => RelationshipStatus::BlockedOther,
                RelationshipStatus::BlockedOther => RelationshipStatus::Blocked,
            };
            t == expected
        },
        (None, None) => true,
        _ => false,
    }
}

/// Whether the acting user owns the guild and stands in its membership list.
/// Ownership short-circuits the whole evaluation to [`ALL_PERMISSIONS`].
pub open spec fn is_guild_owner(user: UserView, guild: Option<GuildView>) -> bool {
    match guild {
        Some(g) => g.members.contains(user.id) && g.owner == user.id,
        None => false,
    }
}

/// The permissions the guild layer contributes under a non-owner: the
/// guild's default bitfield for members, nothing for everyone else or when
/// no guild context is present.
pub open spec fn guild_permissions(user: UserView, guild: Option<GuildView>) -> u32 {
    match guild {
        Some(g) => if g.members.contains(user.id) {
            g.default_permissions
        } else {
            0
        },
        None => 0,
    }
}

/// The counterparty of a direct conversation: the last recipient that is not
/// the acting user, or the empty identity when there is none.
pub open spec fn other_recipient(recipients: Seq<Seq<char>>, me: Seq<char>) -> Seq<char>
    decreases recipients.len(),
{
    if recipients.len() == 0 {
        Seq::empty()
    } else if recipients.last() != me {
        recipients.last()
    } else {
        other_recipient(recipients.drop_last(), me)
    }
}

/// Whether the acting user's resolved relationship to the conversation's
/// counterparty is blocking in either direction.
pub open spec fn dm_blocked(user: UserView, recipients: Seq<Seq<char>>) -> bool {
    let rel = resolved_relationship(
        user.id,
        other_recipient(recipients, user.id),
        user.relations,
    );
    rel == Relationship::Blocked || rel == Relationship::BlockedOther
}

/// What a participant of a direct conversation may do: the fixed baseline,
/// cut down to bare [`ACCESS`] when either side blocked the other.
pub open spec fn dm_permissions(user: UserView, recipients: Seq<Seq<char>>) -> u32 {
    if dm_blocked(user, recipients) {
        ACCESS
    } else {
        DM_PERMISSIONS
    }
}

/// The channel layer's override of the guild-level base, by channel kind.
/// Saved messages and guild text channels define none; a direct conversation
/// grants its participants the blocking-gated baseline; a group grants its
/// owner everything and its recipients the baseline.
pub open spec fn channel_permissions(user: UserView, channel: ChannelView, base: u32) -> u32 {
    match channel {
        ChannelView::SavedMessages { .. } => base,
        ChannelView::DirectMessage { recipients, .. } => if recipients.contains(user.id) {
            dm_permissions(user, recipients)
        } else {
            base
        },
        ChannelView::Group { owner, recipients, .. } => if owner == user.id {
            ALL_PERMISSIONS
        } else if recipients.contains(user.id) {
            DM_PERMISSIONS
        } else {
            base
        },
        ChannelView::TextChannel { .. } => base,
    }
}

/// Mathematical model of an evaluation context.
pub struct PermissionCalculatorView {
    pub user: UserView,
    pub channel: Option<ChannelView>,
    pub guild: Option<GuildView>,
}

/// The effective capability bitfield for a context: the guild-owner guard
/// first, then the guild-level base, then the channel-level override.
pub open spec fn spec_calculate(c: PermissionCalculatorView) -> u32 {
    if is_guild_owner(c.user, c.guild) {
        ALL_PERMISSIONS
    } else {
        let base = guild_permissions(c.user, c.guild);
        match c.channel {
            Some(ch) => channel_permissions(c.user, ch, base),
            None => base,
        }
    }
}

/// An evaluation context: the acting user, and whatever channel and guild
/// contexts the caller has loaded for the request at hand.
///
/// The caller resolves identities to loaded records first; in particular,
/// for a guild text channel without an explicit guild context it looks up
/// [`Channel::parent_guild_id`] in its store and supplies the result through
/// [`PermissionCalculator::guild`].  A lookup that finds nothing simply
/// leaves the guild context absent.
#[derive(Debug)]
pub struct PermissionCalculator {
    pub user: User,
    pub channel: Option<Channel>,
    pub guild: Option<Guild>,
}

impl View for PermissionCalculator {
    type V = PermissionCalculatorView;

    open spec fn view(&self) -> PermissionCalculatorView {
        PermissionCalculatorView {
            user: self.user@,
            channel: self.channel.deep_view(),
            guild: self.guild.deep_view(),
        }
    }
}

impl PermissionCalculator {
    /// An evaluation context over the acting user alone.
    pub fn new(user: User) -> (r: PermissionCalculator)
        ensures
            r@.user == user@,
            r@.channel is None,
            r@.guild is None,
    {
        PermissionCalculator { user, channel: None, guild: None }
    }

    /// The same context with a loaded channel supplied.
    pub fn channel(self, channel: Channel) -> (r: PermissionCalculator)
        ensures
            r@.user == self@.user,
            r@.channel == Some(channel@),
            r@.guild == self@.guild,
    {
        PermissionCalculator { channel: Some(channel), ..self }
    }

    /// The same context with a loaded guild supplied.
    pub fn guild(self, guild: Guild) -> (r: PermissionCalculator)
        ensures
            r@.user == self@.user,
            r@.channel == self@.channel,
            r@.guild == Some(guild@),
    {
        PermissionCalculator { guild: Some(guild), ..self }
    }

    /// Compute the effective capability bitfield for this context.
    pub fn calculate(self) -> (r: u32)
        ensures
            r == spec_calculate(self@),
    {
        let me = self.user.id.as_str();

        let mut permissions: u32 = 0;
        if let Some(guild) = &self.guild {
            if contains_id(&guild.members, me) {
                if str_eq(guild.owner.as_str(), me) {
                    return ALL_PERMISSIONS;
                }
                permissions = guild.default_permissions;
            }
        }

        if let Some(channel) = &self.channel {
            match channel {
                Channel::SavedMessages { .. } => {},
                Channel::DirectMessage { recipients, .. } => {
                    let ghost rv = recipients.deep_view();
                    let mut participant = false;
                    let mut other: &str = "";
                    proof {
                        reveal_strlit("");
                        assert(""@ =~= Seq::<char>::empty());
                        assert(rv.take(0) =~= Seq::<Seq<char>>::empty());
                    }
                    let mut i: usize = 0;
                    while i < recipients.len()
                        invariant
                            0 <= i <= recipients@.len(),
                            rv == recipients.deep_view(),
                            me@ == self.user.id@,
                            participant == rv.take(i as int).contains(self.user.id@),
                            other@ == other_recipient(rv.take(i as int), self.user.id@),
                        decreases recipients@.len() - i,
                    {
                        let ghost prefix = rv.take(i as int);
                        let ghost next = rv.take(i as int + 1);
                        proof {
                            assert(rv[i as int] == recipients@[i as int]@);
                            assert(next.drop_last() =~= prefix);
                            assert(next.last() == rv[i as int]);
                        }
                        if str_eq(recipients[i].as_str(), me) {
                            participant = true;
                            proof {
                                assert(next[i as int] == self.user.id@);
                                assert(next.contains(self.user.id@));
                                assert(other_recipient(next, self.user.id@)
                                    == other_recipient(prefix, self.user.id@));
                            }
                        } else {
                            other = recipients[i].as_str();
                            proof {
                                assert(rv[i as int] != self.user.id@);
                                assert(other_recipient(next, self.user.id@) == rv[i as int]);
                                if prefix.contains(self.user.id@) {
                                    let j = choose|j: int|
                                        0 <= j < prefix.len() && prefix[j] == self.user.id@;
                                    assert(next[j] == self.user.id@);
                                    assert(next.contains(self.user.id@));
                                } else {
                                    assert(!next.contains(self.user.id@)) by {
                                        if next.contains(self.user.id@) {
                                            let j = choose|j: int|
                                                0 <= j < next.len()
                                                    && next[j] == self.user.id@;
                                            assert(j < i as int);
                                            assert(prefix[j] == self.user.id@);
                                            assert(prefix.contains(self.user.id@));
                                        }
                                    }
                                }
                            }
                        }
                        i += 1;
                    }
                    proof {
                        assert(rv.take(recipients@.len() as int) =~= rv);
                    }
                    if participant {
                        let relationship = get_relationship_internal(me, other, &self.user.relations);
                        if relationship == Relationship::Blocked
                            || relationship == Relationship::BlockedOther {
                            permissions = ACCESS;
                        } else {
                            permissions = DM_PERMISSIONS;
                        }
                    }
                },
                Channel::Group { owner, recipients, .. } => {
                    if str_eq(owner.as_str(), me) {
                        return ALL_PERMISSIONS;
                    }
                    if contains_id(recipients, me) {
                        permissions = DM_PERMISSIONS;
                    }
                },
                Channel::TextChannel { .. } => {},
            }
        }

        permissions
    }

    /// Compute the effective capability bitfield, packed for bit-level
    /// inspection.
    pub fn as_permission(self) -> (r: MemberPermissions)
        ensures
            r.0 == spec_calculate(self@),
    {
        MemberPermissions(self.calculate())
    }
}

/// A packed capability bitfield with named accessors for every position.
#[derive(Clone, Copy, Debug, PartialEq, Eq, Structural)]
pub struct MemberPermissions(pub u32);

impl MemberPermissions {
    /// Whether the given capability's bit is set.
    pub fn get(&self, permission: Permission) -> (r: bool)
        ensures
            r == (self.0 & permission.spec_bit() != 0),
    {
        self.0 & permission.bit() != 0
    }

    /// The bitfield with the given capability's bit set or cleared.
    pub fn set(&mut self, permission: Permission, value: bool)
        ensures
            final(self).0 == if value {
                old(self).0 | permission.spec_bit()
            } else {
                old(self).0 & !permission.spec_bit()
            },
    {
        if value {
            self.0 = self.0 | permission.bit();
        } else {
            self.0 = self.0 & !permission.bit();
        }
    }

    pub fn get_access(&self) -> (r: bool)
        ensures
            r == (self.0 & ACCESS != 0),
    {
        self.get(Permission::Access)
    }

    pub fn set_access(&mut self, value: bool)
        ensures
            final(self).0 == if value {
                old(self).0 | ACCESS
            } else {
                old(self).0 & !ACCESS
            },
    {
        self.set(Permission::Access, value)
    }

    pub fn get_create_invite(&self) -> (r: bool)
        ensures
            r == (self.0 & CREATE_INVITE != 0),
    {
        self.get(Permission::CreateInvite)
    }

    pub fn set_create_invite(&mut self, value: bool)
        ensures
            final(self).0 == if value {
                old(self).0 | CREATE_INVITE
            } else {
                old(self).0 & !CREATE_INVITE
            },
    {
        self.set(Permission::CreateInvite, value)
    }

    pub fn get_kick_members(&self) -> (r: bool)
        ensures
            r == (self.0 & KICK_MEMBERS != 0),
    {
        self.get(Permission::KickMembers)
    }

    pub fn set_kick_members(&mut self, value: bool)
        ensures
            final(self).0 == if value {
                old(self).0 | KICK_MEMBERS
            } else {
                old(self).0 & !KICK_MEMBERS
            },
    {
        self.set(Permission::KickMembers, value)
    }

    pub fn get_ban_members(&self) -> (r: bool)
        ensures
            r == (self.0 & BAN_MEMBERS != 0),
    {
        self.get(Permission::BanMembers)
    }

    pub fn set_ban_members(&mut self, value: bool)
        ensures
            final(self).0 == if value {
                old(self).0 | BAN_MEMBERS
            } else {
                old(self).0 & !BAN_MEMBERS
            },
    {
        self.set(Permission::BanMembers, value)
    }

    pub fn get_read_messages(&self) -> (r: bool)
        ensures
            r == (self.0 & READ_MESSAGES != 0),
    {
        self.get(Permission::ReadMessages)
    }

    pub fn set_read_messages(&mut self, value: bool)
        ensures
            final(self).0 == if value {
                old(self).0 | READ_MESSAGES
            } else {
                old(self).0 & !READ_MESSAGES
            },
    {
        self.set(Permission::ReadMessages, value)
    }

    pub fn get_send_messages(&self) -> (r: bool)
        ensures
            r == (self.0 & SEND_MESSAGES != 0),
    {
        self.get(Permission::SendMessages)
    }

    pub fn set_send_messages(&mut self, value: bool)
        ensures
            final(self).0 == if value {
                old(self).0 | SEND_MESSAGES
            } else {
                old(self).0 & !SEND_MESSAGES
            },
    {
        self.set(Permission::SendMessages, value)
    }

    pub fn get_manage_messages(&self) -> (r: bool)
        ensures
            r == (self.0 & MANAGE_MESSAGES != 0),
    {
        self.get(Permission::ManageMessages)
    }

    pub fn set_manage_messages(&mut self, value: bool)
        ensures
            final(self).0 == if value {
                old(self).0 | MANAGE_MESSAGES
            } else {
                old(self).0 & !MANAGE_MESSAGES
            },
    {
        self.set(Permission::ManageMessages, value)
    }

    pub fn get_manage_channels(&self) -> (r: bool)
        ensures
            r == (self.0 & MANAGE_CHANNELS != 0),
    {
        self.get(Permission::ManageChannels)
    }

    pub fn set_manage_channels(&mut self, value: bool)
        ensures
            final(self).0 == if value {
                old(self).0 | MANAGE_CHANNELS
            } else {
                old(self).0 & !MANAGE_CHANNELS
            },
    {
        self.set(Permission::ManageChannels, value)
    }

    pub fn get_manage_server(&self) -> (r: bool)
        ensures
            r == (self.0 & MANAGE_SERVER != 0),
    {
        self.get(Permission::ManageServer)
    }

    pub fn set_manage_server(&mut self, value: bool)
        ensures
            final(self).0 == if value {
                old(self).0 | MANAGE_SERVER
            } else {
                old(self).0 & !MANAGE_SERVER
            },
    {
        self.set(Permission::ManageServer, value)
    }

    pub fn get_manage_roles(&self) -> (r: bool)
        ensures
            r == (self.0 & MANAGE_ROLES != 0),
    {
        self.get(Permission::ManageRoles)
    }

    pub fn set_manage_roles(&mut self, value: bool)
        ensures
            final(self).0 == if value {
                old(self).0 | MANAGE_ROLES
            } else {
                old(self).0 & !MANAGE_ROLES
            },
    {
        self.set(Permission::ManageRoles, value)
    }

    pub fn get_invite_others(&self) -> (r: bool)
        ensures
            r == (self.0 & INVITE_OTHERS != 0),
    {
        self.get(Permission::InviteOthers)
    }

    pub fn set_invite_others(&mut self, value: bool)
        ensures
            final(self).0 == if value {
                old(self).0 | INVITE_OTHERS
            } else {
                old(self).0 & !INVITE_OTHERS
            },
    {
        self.set(Permission::InviteOthers, value)
    }
}

/// A guild owner who stands in the membership list holds every capability,
/// whatever channel context is supplied and whatever the guild's default
/// permissions say.
pub proof fn lemma_guild_owner_supreme(c: PermissionCalculatorView)
    requires
        c.guild matches Some(g) && g.owner == c.user.id && g.members.contains(c.user.id),
    ensures
        spec_calculate(c) == ALL_PERMISSIONS,
{
}

/// A group's owner holds every capability in that group, whatever guild
/// context is supplied alongside.
pub proof fn lemma_group_owner_supreme(c: PermissionCalculatorView)
    requires
        c.channel matches Some(ChannelView::Group { owner, .. }) && owner == c.user.id,
    ensures
        spec_calculate(c) == ALL_PERMISSIONS,
{
}

/// A direct-message channel grants a user who is not one of its recipients
/// nothing: the outcome is exactly what it would be with no channel context
/// at all.
pub proof fn lemma_dm_non_participant(c: PermissionCalculatorView)
    requires
        c.channel matches Some(ChannelView::DirectMessage { recipients, .. })
            && !recipients.contains(c.user.id),
    ensures
        spec_calculate(c) == spec_calculate(
            (PermissionCalculatorView { channel: None, ..c }),
        ),
{
}

/// A participant of a direct conversation whose resolved relationship to the
/// counterparty is blocking in either direction is cut down to bare access:
/// a strict subset of the usual baseline.  (A guild context whose owner the
/// user is would short-circuit first and is left out.)
pub proof fn lemma_dm_blocked_access_only(c: PermissionCalculatorView)
    requires
        !is_guild_owner(c.user, c.guild),
        c.channel matches Some(ChannelView::DirectMessage { recipients, .. })
            && recipients.contains(c.user.id) && dm_blocked(c.user, recipients),
    ensures
        spec_calculate(c) == ACCESS,
        ACCESS & DM_PERMISSIONS == ACCESS,
        ACCESS != DM_PERMISSIONS,
{
    assert(1u32 & 177u32 == 1u32) by (bit_vector);
}

/// The direct-conversation baseline is exactly the named capability set
/// {access, read messages, send messages, invite others}.
pub proof fn lemma_dm_baseline_bits()
    ensures
        DM_PERMISSIONS == ACCESS | READ_MESSAGES | SEND_MESSAGES | INVITE_OTHERS,
{
    assert(177u32 == 1u32 | 16u32 | 32u32 | 128u32) by (bit_vector);
}

/// A participant of a direct conversation with any non-blocking relationship
/// to the counterparty gets exactly the fixed baseline.  (A guild context
/// whose owner the user is would short-circuit first and is left out.)
pub proof fn lemma_dm_participant_baseline(c: PermissionCalculatorView)
    requires
        !is_guild_owner(c.user, c.guild),
        c.channel matches Some(ChannelView::DirectMessage { recipients, .. })
            && recipients.contains(c.user.id) && !dm_blocked(c.user, recipients),
    ensures
        spec_calculate(c) == DM_PERMISSIONS,
{
}

/// The evaluation is a pure function of its context: two contexts that model
/// the same values produce the same bitfield.  Together with the contract of
/// [`PermissionCalculator::calculate`], calling it twice over unchanged
/// inputs yields identical output.
pub proof fn lemma_calculate_pure(a: PermissionCalculator, b: PermissionCalculator)
    requires
        a@ == b@,
    ensures
        spec_calculate(a@) == spec_calculate(b@),
{
}

} // verus!

