use revolt::channel::Channel;
use revolt::guild::Guild;
use revolt::permissions::{
    MemberPermissions, Permission, PermissionCalculator, ACCESS, ALL_PERMISSIONS, DM_PERMISSIONS,
    INVITE_OTHERS, MANAGE_CHANNELS, READ_MESSAGES, SEND_MESSAGES,
};
use revolt::user::{RelationshipStatus, User, UserRelationship};

fn plain_user(id: &str) -> User {
    User {
        id: id.to_string(),
        username: format!("user {}", id),
        avatar: None,
        relations: None,
    }
}

fn user_with_relation(id: &str, other: &str, status: RelationshipStatus) -> User {
    User {
        id: id.to_string(),
        username: format!("user {}", id),
        avatar: None,
        relations: Some(vec![UserRelationship { id: other.to_string(), status }]),
    }
}

fn guild(owner: &str, default_permissions: u32, members: &[&str]) -> Guild {
    Guild {
        id: "guild".to_string(),
        name: "A guild".to_string(),
        description: "A description".to_string(),
        owner: owner.to_string(),
        default_permissions,
        members: members.iter().map(|m| m.to_string()).collect(),
        channels: vec![],
    }
}

fn dm(recipients: &[&str]) -> Channel {
    Channel::DirectMessage {
        id: "dm".to_string(),
        active: false,
        recipients: recipients.iter().map(|r| r.to_string()).collect(),
        last_message: None,
    }
}

fn group(owner: &str, recipients: &[&str]) -> Channel {
    Channel::Group {
        id: "group".to_string(),
        nonce: None,
        name: "A group".to_string(),
        owner: owner.to_string(),
        description: None,
        recipients: recipients.iter().map(|r| r.to_string()).collect(),
        icon: None,
        last_message: None,
    }
}

#[test]
fn guild_owner_gets_supreme_regardless_of_defaults() {
    let p = PermissionCalculator::new(plain_user("u"))
        .guild(guild("u", 0, &["u"]))
        .calculate();
    assert_eq!(p, ALL_PERMISSIONS);
}

#[test]
fn guild_owner_gets_supreme_regardless_of_channel() {
    let p = PermissionCalculator::new(user_with_relation("u", "v", RelationshipStatus::Blocked))
        .guild(guild("u", 0, &["u"]))
        .channel(dm(&["u", "v"]))
        .calculate();
    assert_eq!(p, ALL_PERMISSIONS);
}

#[test]
fn plain_member_gets_exactly_the_default_bitfield() {
    let p = PermissionCalculator::new(plain_user("u"))
        .guild(guild("owner", 0b0000010001, &["owner", "u"]))
        .calculate();
    assert_eq!(p, 0b0000010001);
    assert_eq!(p, ACCESS | READ_MESSAGES);
}

#[test]
fn non_member_gets_nothing() {
    let p = PermissionCalculator::new(plain_user("u"))
        .guild(guild("owner", ALL_PERMISSIONS, &["owner"]))
        .calculate();
    assert_eq!(p, 0);
}

#[test]
fn owner_outside_member_list_does_not_short_circuit() {
    let p = PermissionCalculator::new(plain_user("u"))
        .guild(guild("u", 17, &["someone else"]))
        .calculate();
    assert_eq!(p, 0);
}

#[test]
fn no_context_at_all_gets_nothing() {
    let p = PermissionCalculator::new(plain_user("u")).calculate();
    assert_eq!(p, 0);
}

#[test]
fn dm_participant_gets_the_baseline() {
    let p = PermissionCalculator::new(plain_user("a"))
        .channel(dm(&["a", "b"]))
        .calculate();
    assert_eq!(p, DM_PERMISSIONS);
    assert_eq!(p, 177);
}

#[test]
fn dm_participant_with_friend_relation_gets_the_baseline() {
    let p = PermissionCalculator::new(user_with_relation("a", "b", RelationshipStatus::Friend))
        .channel(dm(&["a", "b"]))
        .calculate();
    assert_eq!(p, DM_PERMISSIONS);
}

#[test]
fn dm_non_participant_gets_nothing() {
    let p = PermissionCalculator::new(plain_user("c"))
        .channel(dm(&["a", "b"]))
        .calculate();
    assert_eq!(p, 0);
}

#[test]
fn dm_non_participant_with_mutual_friend_still_gets_nothing() {
    let p = PermissionCalculator::new(user_with_relation("c", "b", RelationshipStatus::Friend))
        .channel(dm(&["a", "b"]))
        .calculate();
    assert_eq!(p, 0);
}

#[test]
fn dm_blocked_by_caller_gets_access_only() {
    let p = PermissionCalculator::new(user_with_relation("a", "b", RelationshipStatus::Blocked))
        .channel(dm(&["a", "b"]))
        .calculate();
    assert_eq!(p, ACCESS);
    assert!(p < DM_PERMISSIONS);
}

#[test]
fn dm_blocking_is_symmetric() {
    let a = user_with_relation("a", "b", RelationshipStatus::Blocked);
    let b = user_with_relation("b", "a", RelationshipStatus::BlockedOther);
    let pa = PermissionCalculator::new(a).channel(dm(&["a", "b"])).calculate();
    let pb = PermissionCalculator::new(b).channel(dm(&["a", "b"])).calculate();
    assert_eq!(pa, ACCESS);
    assert_eq!(pb, ACCESS);
}

#[test]
fn group_owner_gets_supreme() {
    let p = PermissionCalculator::new(plain_user("o"))
        .channel(group("o", &["o", "a", "b"]))
        .calculate();
    assert_eq!(p, ALL_PERMISSIONS);
}

#[test]
fn group_recipient_gets_the_baseline() {
    let p = PermissionCalculator::new(plain_user("a"))
        .channel(group("o", &["o", "a", "b"]))
        .calculate();
    assert_eq!(p, DM_PERMISSIONS);
}

#[test]
fn group_outsider_gets_nothing() {
    let p = PermissionCalculator::new(plain_user("x"))
        .channel(group("o", &["o", "a", "b"]))
        .calculate();
    assert_eq!(p, 0);
}

#[test]
fn saved_messages_channel_defines_no_override() {
    let c = Channel::SavedMessages { id: "s".to_string(), user: "u".to_string() };
    let p = PermissionCalculator::new(plain_user("u")).channel(c).calculate();
    assert_eq!(p, 0);
}

#[test]
fn text_channel_defines_no_override() {
    let c = Channel::TextChannel {
        id: "t".to_string(),
        server: "guild".to_string(),
        nonce: None,
        name: "general".to_string(),
        description: None,
        icon: None,
    };
    let p = PermissionCalculator::new(plain_user("u"))
        .channel(c)
        .guild(guild("owner", 17, &["owner", "u"]))
        .calculate();
    assert_eq!(p, 17);
}

#[test]
fn calculate_is_idempotent_on_identical_inputs() {
    let build = || {
        PermissionCalculator::new(user_with_relation("a", "b", RelationshipStatus::Outgoing))
            .channel(dm(&["a", "b"]))
            .guild(guild("owner", 21, &["owner", "a"]))
    };
    let first = build().calculate();
    let second = build().calculate();
    assert_eq!(first, second);
}

#[test]
fn as_permission_packs_the_same_bits() {
    let perms = PermissionCalculator::new(plain_user("a"))
        .channel(dm(&["a", "b"]))
        .as_permission();
    assert_eq!(perms, MemberPermissions(177));
    assert!(perms.get_access());
    assert!(!perms.get_create_invite());
    assert!(!perms.get_kick_members());
    assert!(!perms.get_ban_members());
    assert!(perms.get_read_messages());
    assert!(perms.get_send_messages());
    assert!(!perms.get_manage_messages());
    assert!(perms.get_manage_channels());
    assert!(perms.get_invite_others());
    assert!(!perms.get_manage_server());
    assert!(!perms.get_manage_roles());
}

#[test]
fn setters_flip_single_bits() {
    let mut perms = MemberPermissions(0);
    perms.set_access(true);
    assert_eq!(perms.0, 1);
    perms.set_read_messages(true);
    assert_eq!(perms.0, 17);
    perms.set_send_messages(true);
    perms.set_invite_others(true);
    assert_eq!(perms.0, 177);
    perms.set_access(false);
    assert_eq!(perms.0, 176);
    perms.set(Permission::BanMembers, true);
    assert!(perms.get(Permission::BanMembers));
    assert_eq!(perms.0, 176 | 8);
}

#[test]
fn permission_bits_use_the_fixed_layout() {
    assert_eq!(Permission::Access.bit(), 1);
    assert_eq!(Permission::CreateInvite.bit(), 2);
    assert_eq!(Permission::KickMembers.bit(), 4);
    assert_eq!(Permission::BanMembers.bit(), 8);
    assert_eq!(Permission::ReadMessages.bit(), 16);
    assert_eq!(Permission::SendMessages.bit(), 32);
    assert_eq!(Permission::ManageMessages.bit(), 64);
    assert_eq!(Permission::ManageChannels.bit(), 128);
    assert_eq!(Permission::ManageServer.bit(), 256);
    assert_eq!(Permission::ManageRoles.bit(), 512);
    assert_eq!(Permission::InviteOthers.bit(), 128);
    assert_eq!(DM_PERMISSIONS, ACCESS | READ_MESSAGES | SEND_MESSAGES | INVITE_OTHERS);
    assert_eq!(INVITE_OTHERS, MANAGE_CHANNELS);
}

#[test]
fn parent_guild_id_names_only_the_text_channel_guild() {
    let c = Channel::TextChannel {
        id: "t".to_string(),
        server: "guild".to_string(),
        nonce: None,
        name: "general".to_string(),
        description: None,
        icon: None,
    };
    assert_eq!(c.parent_guild_id(), Some("guild"));
    assert_eq!(dm(&["a", "b"]).parent_guild_id(), None);
    assert_eq!(c.id(), "t");
    assert_eq!(dm(&["a", "b"]).id(), "dm");
}
