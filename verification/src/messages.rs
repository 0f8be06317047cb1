//! Message-level models: who sent a message, what a system event renders
//! to, how a message may be interacted with, and the push notification
//! composed from a message.

use vstd::prelude::*;
use vstd::string::StringExecFns;

use crate::user::User;

verus! {

/// The ordered reaction set is carried by indexmap's `IndexSet`; the library
/// stores it and hands it back without looking inside.
#[verifier::external_type_specification]
#[verifier::external_body]
#[verifier::reject_recursive_types(T)]
#[verifier::reject_recursive_types(S)]
pub struct ExIndexSet<T, S>(indexmap::IndexSet<T, S>);

/// How a message should be interacted with.
#[derive(Debug)]
pub struct Interactions {
    /// Reactions which should always appear and be distinct.
    pub reactions: Option<indexmap::IndexSet<String>>,
    /// Whether reactions are restricted to the given list.
    pub restrict_reactions: bool,
}

impl Interactions {
    /// Whether every field still holds its default initialisation.
    pub fn is_default(&self) -> (r: bool)
        ensures
            r == (!self.restrict_reactions && self.reactions is None),
    {
        !self.restrict_reactions && self.reactions.is_none()
    }
}

/// An automated sender registered on a channel.  Its avatar is carried as
/// an attachment identifier.
#[derive(Clone, Debug)]
pub struct Webhook {
    pub id: String,
    pub name: String,
    pub avatar: Option<String>,
}

/// The identity to be attributed for a message, one of the loaded user, a
/// webhook, or the system itself.
#[derive(Clone, Copy, Debug)]
pub enum MessageAuthor<'a> {
    User(&'a User),
    Webhook(&'a Webhook),
    System { username: &'a str, avatar: Option<&'a str> },
}

impl<'a> MessageAuthor<'a> {
    /// The identifier attributed for the message; system messages carry the
    /// fixed all-zero identity.
    pub open spec fn spec_id(self) -> Seq<char> {
        match self {
            MessageAuthor::User(u) => u.id@,
            MessageAuthor::Webhook(w) => w.id@,
            MessageAuthor::System { .. } => "00000000000000000000000000"@,
        }
    }

    /// The identifier attributed for the message.
    pub fn id(&self) -> (r: &str)
        ensures
            r@ == self.spec_id(),
    {
        match self {
            MessageAuthor::User(u) => u.id.as_str(),
            MessageAuthor::Webhook(w) => w.id.as_str(),
            MessageAuthor::System { .. } => "00000000000000000000000000",
        }
    }

    /// The avatar attachment attributed for the message, if one is set.
    pub open spec fn spec_avatar(self) -> Option<Seq<char>> {
        match self {
            MessageAuthor::User(u) => u.avatar.deep_view(),
            MessageAuthor::Webhook(w) => w.avatar.deep_view(),
            MessageAuthor::System { avatar, .. } => avatar.deep_view(),
        }
    }

    /// The avatar attachment attributed for the message, if one is set.
    pub fn avatar(&self) -> (r: Option<&str>)
        ensures
            r.deep_view() == self.spec_avatar(),
    {
        match self {
            MessageAuthor::User(u) => match &u.avatar {
                Some(file) => Some(file.as_str()),
                None => None,
            },
            MessageAuthor::Webhook(w) => match &w.avatar {
                Some(file) => Some(file.as_str()),
                None => None,
            },
            MessageAuthor::System { avatar, .. } => *avatar,
        }
    }

    /// The display name attributed for the message.
    pub open spec fn spec_username(self) -> Seq<char> {
        match self {
            MessageAuthor::User(u) => u.username@,
            MessageAuthor::Webhook(w) => w.name@,
            MessageAuthor::System { username, .. } => username@,
        }
    }

    /// The display name attributed for the message.
    pub fn username(&self) -> (r: &str)
        ensures
            r@ == self.spec_username(),
    {
        match self {
            MessageAuthor::User(u) => u.username.as_str(),
            MessageAuthor::Webhook(w) => w.name.as_str(),
            MessageAuthor::System { username, .. } => username,
        }
    }
}

/// A system event recorded in a channel's history.
#[derive(Clone, Debug)]
pub enum SystemMessage {
    Text { content: String },
    UserAdded { id: String, by: String },
    UserRemove { id: String, by: String },
    UserJoined { id: String },
    UserLeft { id: String },
    UserKicked { id: String },
    UserBanned { id: String },
    ChannelRenamed { name: String, by: String },
    ChannelDescriptionChanged { by: String },
    ChannelIconChanged { by: String },
    ChannelOwnershipChanged { from: String, to: String },
}

impl SystemMessage {
    /// The user-facing line a system event renders to.
    pub open spec fn spec_text(self) -> Seq<char> {
        match self {
            SystemMessage::Text { content } => content@,
            SystemMessage::UserAdded { .. } => "User added to the channel."@,
            SystemMessage::UserRemove { .. } => "User removed from the channel."@,
            SystemMessage::UserJoined { .. } => "User joined the channel."@,
            SystemMessage::UserLeft { .. } => "User left the channel."@,
            SystemMessage::UserKicked { .. } => "User kicked from the channel."@,
            SystemMessage::UserBanned { .. } => "User banned from the channel."@,
            SystemMessage::ChannelRenamed { .. } => "Channel renamed."@,
            SystemMessage::ChannelDescriptionChanged { .. } => "Channel description changed."@,
            SystemMessage::ChannelIconChanged { .. } => "Channel icon changed."@,
            SystemMessage::ChannelOwnershipChanged { .. } => "Channel ownership changed."@,
        }
    }

    /// The user-facing line a system event renders to.
    pub fn to_text(self) -> (r: String)
        ensures
            r@ == self.spec_text(),
    {
        match self {
            SystemMessage::Text { content } => content,
            SystemMessage::UserAdded { .. } => "User added to the channel.".to_owned(),
            SystemMessage::UserRemove { .. } => "User removed from the channel.".to_owned(),
            SystemMessage::UserJoined { .. } => "User joined the channel.".to_owned(),
            SystemMessage::UserLeft { .. } => "User left the channel.".to_owned(),
            SystemMessage::UserKicked { .. } => "User kicked from the channel.".to_owned(),
            SystemMessage::UserBanned { .. } => "User banned from the channel.".to_owned(),
            SystemMessage::ChannelRenamed { .. } => "Channel renamed.".to_owned(),
            SystemMessage::ChannelDescriptionChanged { .. } => {
                "Channel description changed.".to_owned()
            },
            SystemMessage::ChannelIconChanged { .. } => "Channel icon changed.".to_owned(),
            SystemMessage::ChannelOwnershipChanged { .. } => {
                "Channel ownership changed.".to_owned()
            },
        }
    }
}

/// The host names notifications link out to: the web app, the HTTP API, and
/// the file server.
#[derive(Clone, Debug)]
pub struct Hosts {
    pub app: String,
    pub api: String,
    pub autumn: String,
}

/// A push notification ready for delivery.
#[derive(Clone, Debug)]
pub struct PushNotification {
    /// Known author name.
    pub author: String,
    /// URL to the author's avatar.
    pub icon: String,
    /// URL to the first attachment, when the message carries one.
    pub image: Option<String>,
    /// Message content or system-event line.
    pub body: String,
    /// Unique tag, the channel identifier.
    pub tag: String,
    /// When the notification was created.
    pub timestamp: u64,
    /// URL to open when the notification is clicked.
    pub url: String,
}

/// The icon URL for a notification: the author's avatar when one is set,
/// their default avatar otherwise, and the app logo for authorless
/// messages.
pub open spec fn spec_icon<'a>(
    author: Option<MessageAuthor<'a>>,
    app: Seq<char>,
    api: Seq<char>,
    autumn: Seq<char>,
) -> Seq<char> {
    match author {
        Some(a) => match a.spec_avatar() {
            Some(avatar) => autumn + "/avatars/"@ + avatar,
            None => api + "/users/"@ + a.spec_id() + "/default_avatar"@,
        },
        None => app + "/assets/logo.png"@,
    }
}

/// The image URL for a notification: the first attachment, if any.
pub open spec fn spec_image(attachments: Option<Seq<Seq<char>>>, autumn: Seq<char>) -> Option<
    Seq<char>,
> {
    match attachments {
        Some(ids) => if ids.len() > 0 {
            Some(autumn + "/attachments/"@ + ids[0])
        } else {
            None
        },
        None => None,
    }
}

/// The body of a notification: a system event's line first, then the
/// message content, then a fixed placeholder.
pub open spec fn spec_body(content: Option<Seq<char>>, system: Option<SystemMessage>) -> Seq<
    char,
> {
    match system {
        Some(s) => s.spec_text(),
        None => match content {
            Some(text) => text,
            None => "Empty Message"@,
        },
    }
}

impl PushNotification {
    /// Compose the notification for a message: author display name (or the
    /// platform name), icon, first attachment as the image, body, the
    /// channel identifier as the tag, and the link into the app.  The
    /// message fields arrive already loaded, and the caller supplies the
    /// creation time.
    pub fn from<'a>(
        author: Option<MessageAuthor<'a>>,
        content: Option<String>,
        system: Option<SystemMessage>,
        attachments: Option<Vec<String>>,
        message_id: &str,
        channel_id: &str,
        hosts: &Hosts,
        timestamp: u64,
    ) -> (r: PushNotification)
        ensures
            r.author@ == match author {
                Some(a) => a.spec_username(),
                None => "Revolt"@,
            },
            r.icon@ == spec_icon(author, hosts.app@, hosts.api@, hosts.autumn@),
            r.image.deep_view() == spec_image(attachments.deep_view(), hosts.autumn@),
            r.body@ == spec_body(content.deep_view(), system),
            r.tag@ == channel_id@,
            r.timestamp == timestamp,
            r.url@ == hosts.app@ + "/channel/"@ + channel_id@ + "/"@ + message_id@,
    {
        let author_name = match &author {
            Some(a) => a.username().to_owned(),
            None => "Revolt".to_owned(),
        };

        let icon = match &author {
            Some(a) => match a.avatar() {
                Some(avatar) => {
                    let mut s = hosts.autumn.clone();
                    s.append("/avatars/");
                    s.append(avatar);
                    s
                },
                None => {
                    let mut s = hosts.api.clone();
                    s.append("/users/");
                    s.append(a.id());
                    s.append("/default_avatar");
                    s
                },
            },
            None => {
                let mut s = hosts.app.clone();
                s.append("/assets/logo.png");
                s
            },
        };

        let image = match &attachments {
            Some(ids) => if ids.len() > 0 {
                let mut s = hosts.autumn.clone();
                s.append("/attachments/");
                s.append(ids[0].as_str());
                Some(s)
            } else {
                None
            },
            None => None,
        };

        let body = match system {
            Some(sys) => sys.to_text(),
            None => match content {
                Some(text) => text,
                None => "Empty Message".to_owned(),
            },
        };

        let mut url = hosts.app.clone();
        url.append("/channel/");
        url.append(channel_id);
        url.append("/");
        url.append(message_id);

        PushNotification {
            author: author_name,
            icon,
            image,
            body,
            tag: channel_id.to_owned(),
            timestamp,
            url,
        }
    }
}

} // verus!
