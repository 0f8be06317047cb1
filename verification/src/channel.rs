//! Channels: saved-message stores, direct conversations, groups and guild
//! text channels.

use vstd::prelude::*;

verus! {

/// Short summary of the last message sent in a channel.
#[derive(Clone, Debug)]
pub struct LastMessage {
    pub id: String,
    pub author: String,
    pub short: String,
}

/// Mathematical model of a last-message summary.
pub struct LastMessageView {
    pub id: Seq<char>,
    pub author: Seq<char>,
    pub short: Seq<char>,
}

impl View for LastMessage {
    type V = LastMessageView;

    open spec fn view(&self) -> LastMessageView {
        LastMessageView { id: self.id@, author: self.author@, short: self.short@ }
    }
}

impl DeepView for LastMessage {
    type V = LastMessageView;

    open spec fn deep_view(&self) -> LastMessageView {
        self.view()
    }
}

/// A loaded channel context.  Permission semantics depend on the kind:
/// a direct message belongs to its two recipients, a group to its owner and
/// recipients, and a guild text channel to the guild named by `server`.
/// Icons are carried as attachment identifiers.
#[derive(Clone, Debug)]
pub enum Channel {
    SavedMessages {
        id: String,
        user: String,
    },
    DirectMessage {
        id: String,
        active: bool,
        recipients: Vec<String>,
        last_message: Option<LastMessage>,
    },
    Group {
        id: String,
        nonce: Option<String>,
        name: String,
        owner: String,
        description: Option<String>,
        recipients: Vec<String>,
        icon: Option<String>,
        last_message: Option<LastMessage>,
    },
    TextChannel {
        id: String,
        server: String,
        nonce: Option<String>,
        name: String,
        description: Option<String>,
        icon: Option<String>,
    },
}

/// Mathematical model of a loaded channel context.
pub enum ChannelView {
    SavedMessages {
        id: Seq<char>,
        user: Seq<char>,
    },
    DirectMessage {
        id: Seq<char>,
        active: bool,
        recipients: Seq<Seq<char>>,
        last_message: Option<LastMessageView>,
    },
    Group {
        id: Seq<char>,
        nonce: Option<Seq<char>>,
        name: Seq<char>,
        owner: Seq<char>,
        description: Option<Seq<char>>,
        recipients: Seq<Seq<char>>,
        icon: Option<Seq<char>>,
        last_message: Option<LastMessageView>,
    },
    TextChannel {
        id: Seq<char>,
        server: Seq<char>,
        nonce: Option<Seq<char>>,
        name: Seq<char>,
        description: Option<Seq<char>>,
        icon: Option<Seq<char>>,
    },
}

impl View for Channel {
    type V = ChannelView;

    open spec fn view(&self) -> ChannelView {
        match self {
            Channel::SavedMessages { id, user } => ChannelView::SavedMessages {
                id: id@,
                user: user@,
            },
            Channel::DirectMessage { id, active, recipients, last_message } => {
                ChannelView::DirectMessage {
                    id: id@,
                    active: *active,
                    recipients: recipients.deep_view(),
                    last_message: last_message.deep_view(),
                }
            },
            Channel::Group {
                id,
                nonce,
                name,
                owner,
                description,
                recipients,
                icon,
                last_message,
            } => ChannelView::Group {
                id: id@,
                nonce: nonce.deep_view(),
                name: name@,
                owner: owner@,
                description: description.deep_view(),
                recipients: recipients.deep_view(),
                icon: icon.deep_view(),
                last_message: last_message.deep_view(),
            },
            Channel::TextChannel { id, server, nonce, name, description, icon } => {
                ChannelView::TextChannel {
                    id: id@,
                    server: server@,
                    nonce: nonce.deep_view(),
                    name: name@,
                    description: description.deep_view(),
                    icon: icon.deep_view(),
                }
            },
        }
    }
}

impl DeepView for Channel {
    type V = ChannelView;

    open spec fn deep_view(&self) -> ChannelView {
        self.view()
    }
}

impl ChannelView {
    /// The unique identifier of a channel, whatever its kind.
    pub open spec fn spec_id(self) -> Seq<char> {
        match self {
            ChannelView::SavedMessages { id, .. } => id,
            ChannelView::DirectMessage { id, .. } => id,
            ChannelView::Group { id, .. } => id,
            ChannelView::TextChannel { id, .. } => id,
        }
    }
}

impl Channel {
    /// The unique identifier of this channel.
    pub fn id(&self) -> (r: &str)
        ensures
            r@ == self@.spec_id(),
    {
        match self {
            Channel::SavedMessages { id, .. } => id.as_str(),
            Channel::DirectMessage { id, .. } => id.as_str(),
            Channel::Group { id, .. } => id.as_str(),
            Channel::TextChannel { id, .. } => id.as_str(),
        }
    }

    /// The guild a caller must resolve before evaluating permissions against
    /// this channel: a guild text channel names its parent guild, every other
    /// kind stands on its own.
    pub fn parent_guild_id(&self) -> (r: Option<&str>)
        ensures
            match r {
                Some(id) => self@ matches ChannelView::TextChannel { server, .. }
                    && id@ == server,
                None => !(self@ is TextChannel),
            },
    {
        match self {
            Channel::TextChannel { server, .. } => Some(server.as_str()),
            _ => None,
        }
    }
}

} // verus!
