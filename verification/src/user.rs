//! Users and the relationship entries they store about one another, and the
//! decisions behind the friend-management calls.

use vstd::prelude::*;

use crate::permissions::{get_relationship, resolved_relationship, Relationship};

verus! {

/// Stored social status of one user toward another.  Entries are written on
/// both sides by the surrounding CRUD layer: a `Friend` entry on one side is
/// matched by a `Friend` entry on the other, an `Outgoing` by an `Incoming`,
/// and a `Blocked` by a `BlockedOther`.
#[derive(Clone, Copy, Debug, PartialEq, Eq, Structural)]
pub enum RelationshipStatus {
    Friend,
    Outgoing,
    Incoming,
    Blocked,
    BlockedOther,
}

/// One stored relationship entry: the other user's identity and the status
/// recorded toward them.
#[derive(Debug)]
pub struct UserRelationship {
    pub id: String,
    pub status: RelationshipStatus,
}

/// Mathematical model of a relationship entry.
pub struct UserRelationshipView {
    pub id: Seq<char>,
    pub status: RelationshipStatus,
}

impl View for UserRelationship {
    type V = UserRelationshipView;

    open spec fn view(&self) -> UserRelationshipView {
        UserRelationshipView { id: self.id@, status: self.status }
    }
}

impl DeepView for UserRelationship {
    type V = UserRelationshipView;

    open spec fn deep_view(&self) -> UserRelationshipView {
        self.view()
    }
}

impl Clone for UserRelationship {
    fn clone(&self) -> (r: Self)
        ensures
            r@ == self@,
    {
        UserRelationship { id: self.id.clone(), status: self.status }
    }
}

/// A loaded user context: identity, display data, and the user's own
/// relationship entries when they have been loaded.
#[derive(Debug)]
pub struct User {
    pub id: String,
    pub username: String,
    pub avatar: Option<String>,
    pub relations: Option<Vec<UserRelationship>>,
}

/// Mathematical model of a loaded user context.
pub struct UserView {
    pub id: Seq<char>,
    pub username: Seq<char>,
    pub avatar: Option<Seq<char>>,
    pub relations: Option<Seq<UserRelationshipView>>,
}

impl View for User {
    type V = UserView;

    open spec fn view(&self) -> UserView {
        UserView {
            id: self.id@,
            username: self.username@,
            avatar: self.avatar.deep_view(),
            relations: self.relations.deep_view(),
        }
    }
}

impl DeepView for User {
    type V = UserView;

    open spec fn deep_view(&self) -> UserView {
        self.view()
    }
}

/// An exact-username lookup query.
#[derive(Clone, Debug)]
pub struct Query {
    pub username: String,
}

/// What a profile request reports about another user: identity, username,
/// and the caller's resolved relationship to them, as its numeric code.
#[derive(Clone, Debug)]
pub struct UserProfile {
    pub id: String,
    pub username: String,
    pub relationship: u8,
}

/// Report another user's profile to the caller.  The relationship is
/// resolved from the caller's own entries under the canonical direct
/// mapping.
pub fn user(caller: &User, target: &User) -> (r: UserProfile)
    ensures
        r.id@ == target.id@,
        r.username@ == target.username@,
        r.relationship == resolved_relationship(
            caller.id@,
            target.id@,
            caller.relations.deep_view(),
        ).spec_code(),
{
    let relationship = get_relationship(caller, target);
    UserProfile {
        id: target.id.clone(),
        username: target.username.clone(),
        relationship: relationship.code(),
    }
}

/// Every relationship entry the caller stores, or nothing when none are
/// loaded.
pub fn get_friends(user: &User) -> (r: Vec<UserRelationship>)
    ensures
        match user.relations.deep_view() {
            Some(entries) => r.deep_view() == entries,
            None => r@.len() == 0,
        },
{
    let mut results: Vec<UserRelationship> = Vec::new();
    if let Some(arr) = &user.relations {
        let ghost entries = arr.deep_view();
        let mut i: usize = 0;
        while i < arr.len()
            invariant
                0 <= i <= arr@.len(),
                entries == arr.deep_view(),
                results@.len() == i,
                forall|j: int| 0 <= j < i ==> results@[j]@ == entries[j],
            decreases arr@.len() - i,
        {
            let entry = &arr[i];
            results.push(UserRelationship { id: entry.id.clone(), status: entry.status });
            proof {
                assert(results@[i as int]@ == entries[i as int]);
            }
            i += 1;
        }
        proof {
            assert(results.deep_view() =~= entries);
        }
    }
    results
}

/// The caller's resolved relationship to the target.
pub fn get_friend(user: &User, target: &User) -> (r: Relationship)
    ensures
        r == resolved_relationship(user.id@, target.id@, user.relations.deep_view()),
{
    get_relationship(user, target)
}

/// How a friend-request call acts, decided from the caller's resolved
/// relationship to the target.
#[derive(Clone, Copy, Debug, PartialEq, Eq, Structural)]
pub enum AddFriendOutcome {
    /// An incoming request is accepted: both sides' entries switch to
    /// `Friend`.
    AcceptRequest,
    /// A fresh request goes out: an `Outgoing` entry is written on the
    /// caller's side, an `Incoming` entry on the target's.
    SendRequest,
    /// The two are friends already; nothing is written.
    AlreadyFriends,
    /// A request was already sent; nothing is written.
    RequestAlreadySent,
    /// The caller has blocked the target; nothing is written.
    TargetBlocked,
    /// The caller is blocked by the target; nothing is written.
    BlockedByTarget,
    /// The caller asked to befriend themselves; nothing is written.
    SelfRequest,
}

/// The friend-request decision table over resolved relationships.
pub open spec fn spec_add_friend(rel: Relationship) -> AddFriendOutcome {
    match rel {
        Relationship::Friend => AddFriendOutcome::AlreadyFriends,
        Relationship::Outgoing => AddFriendOutcome::RequestAlreadySent,
        Relationship::Incoming => AddFriendOutcome::AcceptRequest,
        Relationship::Blocked => AddFriendOutcome::TargetBlocked,
        Relationship::BlockedOther => AddFriendOutcome::BlockedByTarget,
        Relationship::NONE => AddFriendOutcome::SendRequest,
        Relationship::SELF => AddFriendOutcome::SelfRequest,
    }
}

/// Decide a create-or-accept friend request.  The store writes the decision
/// asks for — on both sides — and reports failure to the caller otherwise.
pub fn add_friend(user: &User, target: &User) -> (r: AddFriendOutcome)
    ensures
        r == spec_add_friend(
            resolved_relationship(user.id@, target.id@, user.relations.deep_view()),
        ),
{
    match get_relationship(user, target) {
        Relationship::Friend => AddFriendOutcome::AlreadyFriends,
        Relationship::Outgoing => AddFriendOutcome::RequestAlreadySent,
        Relationship::Incoming => AddFriendOutcome::AcceptRequest,
        Relationship::Blocked => AddFriendOutcome::TargetBlocked,
        Relationship::BlockedOther => AddFriendOutcome::BlockedByTarget,
        Relationship::NONE => AddFriendOutcome::SendRequest,
        Relationship::SELF => AddFriendOutcome::SelfRequest,
    }
}

/// How a remove-friend call acts.
#[derive(Clone, Copy, Debug, PartialEq, Eq, Structural)]
pub enum RemoveFriendOutcome {
    /// The entries for each other are removed on both sides.
    RemoveBoth,
    /// There is no friendship or request to remove; nothing is written.
    NoEffect,
}

/// The remove-friend decision table: only a friendship or a pending request
/// in either direction can be removed.
pub open spec fn spec_remove_friend(rel: Relationship) -> RemoveFriendOutcome {
    match rel {
        Relationship::Friend => RemoveFriendOutcome::RemoveBoth,
        Relationship::Outgoing => RemoveFriendOutcome::RemoveBoth,
        Relationship::Incoming => RemoveFriendOutcome::RemoveBoth,
        _ => RemoveFriendOutcome::NoEffect,
    }
}

/// Decide a remove-friend-or-deny-request call.
pub fn remove_friend(user: &User, target: &User) -> (r: RemoveFriendOutcome)
    ensures
        r == spec_remove_friend(
            resolved_relationship(user.id@, target.id@, user.relations.deep_view()),
        ),
{
    match get_relationship(user, target) {
        Relationship::Friend => RemoveFriendOutcome::RemoveBoth,
        Relationship::Outgoing => RemoveFriendOutcome::RemoveBoth,
        Relationship::Incoming => RemoveFriendOutcome::RemoveBoth,
        _ => RemoveFriendOutcome::NoEffect,
    }
}

/// How a block call acts.
#[derive(Clone, Copy, Debug, PartialEq, Eq, Structural)]
pub enum BlockOutcome {
    /// The target is the caller, or is blocked already; nothing is written.
    NoEffect,
    /// Only the caller's side changes: their entry flips from
    /// `BlockedOther` to `Blocked`, the target's stays as it is.
    UpdateOwnSide,
    /// No entries exist yet: a `Blocked` entry is written on the caller's
    /// side and a `BlockedOther` entry on the target's.
    InsertBoth,
    /// Entries exist on both sides: the caller's is rewritten to `Blocked`
    /// and the target's to `BlockedOther`.
    UpdateBoth,
}

/// The block decision table over resolved relationships.
pub open spec fn spec_block_user(rel: Relationship) -> BlockOutcome {
    match rel {
        Relationship::SELF => BlockOutcome::NoEffect,
        Relationship::Blocked => BlockOutcome::NoEffect,
        Relationship::BlockedOther => BlockOutcome::UpdateOwnSide,
        Relationship::NONE => BlockOutcome::InsertBoth,
        Relationship::Friend => BlockOutcome::UpdateBoth,
        Relationship::Incoming => BlockOutcome::UpdateBoth,
        Relationship::Outgoing => BlockOutcome::UpdateBoth,
    }
}

/// Decide a block call.
pub fn block_user(user: &User, target: &User) -> (r: BlockOutcome)
    ensures
        r == spec_block_user(
            resolved_relationship(user.id@, target.id@, user.relations.deep_view()),
        ),
{
    match get_relationship(user, target) {
        Relationship::SELF => BlockOutcome::NoEffect,
        Relationship::Blocked => BlockOutcome::NoEffect,
        Relationship::BlockedOther => BlockOutcome::UpdateOwnSide,
        Relationship::NONE => BlockOutcome::InsertBoth,
        Relationship::Friend => BlockOutcome::UpdateBoth,
        Relationship::Incoming => BlockOutcome::UpdateBoth,
        Relationship::Outgoing => BlockOutcome::UpdateBoth,
    }
}

} // verus!
