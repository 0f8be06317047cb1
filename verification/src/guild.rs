//! Guilds: owned communities with a default permission bitfield and a
//! membership list.

use vstd::prelude::*;

use crate::text::truncate_chars;

verus! {

/// A loaded guild context.  Presence of an identity in `members` implies
/// membership; the owner holds every capability unconditionally.
#[derive(Clone, Debug)]
pub struct Guild {
    pub id: String,
    pub name: String,
    pub description: String,
    pub owner: String,
    pub default_permissions: u32,
    pub members: Vec<String>,
    pub channels: Vec<String>,
}

/// Mathematical model of a loaded guild context.
pub struct GuildView {
    pub id: Seq<char>,
    pub name: Seq<char>,
    pub description: Seq<char>,
    pub owner: Seq<char>,
    pub default_permissions: u32,
    pub members: Seq<Seq<char>>,
    pub channels: Seq<Seq<char>>,
}

impl View for Guild {
    type V = GuildView;

    open spec fn view(&self) -> GuildView {
        GuildView {
            id: self.id@,
            name: self.name@,
            description: self.description@,
            owner: self.owner@,
            default_permissions: self.default_permissions,
            members: self.members.deep_view(),
            channels: self.channels.deep_view(),
        }
    }
}

impl DeepView for Guild {
    type V = GuildView;

    open spec fn deep_view(&self) -> GuildView {
        self.view()
    }
}

/// Request data for creating a guild.
#[derive(Clone, Debug)]
pub struct CreateGuild {
    pub name: String,
    pub description: Option<String>,
    pub nonce: String,
}

/// Guild fields as they are stored: free-form request strings cut down to
/// the stored limits.
#[derive(Clone, Debug)]
pub struct PreparedGuild {
    pub name: String,
    pub description: String,
    pub nonce: String,
}

/// Why a guild cannot be created for this caller.
#[derive(Clone, Copy, Debug, PartialEq, Eq, Structural)]
pub enum CreateGuildError {
    EmailNotVerified,
}

/// The first `n` characters of `s`.
pub open spec fn spec_truncated(s: Seq<char>, n: int) -> Seq<char> {
    s.take(if n <= s.len() { n } else { s.len() as int })
}

/// The description a new guild is stored with: the request's description cut
/// to 255 characters, or a fixed placeholder when none was given.
pub open spec fn spec_prepared_description(description: Option<Seq<char>>) -> Seq<char> {
    match description {
        Some(d) => spec_truncated(d, 255),
        None => "No description."@,
    }
}

/// Decide a guild-creation request: only callers with a verified email may
/// create guilds, and the stored name, description and nonce are cut to 32,
/// 255 and 32 characters.  Whether the nonce was already used is the store's
/// question, asked by the caller afterwards.
pub fn prepare_guild(email_verified: bool, info: &CreateGuild) -> (r: Result<
    PreparedGuild,
    CreateGuildError,
>)
    ensures
        match r {
            Ok(p) => email_verified && p.name@ == spec_truncated(info.name@, 32)
                && p.description@ == spec_prepared_description(info.description.deep_view())
                && p.nonce@ == spec_truncated(info.nonce@, 32),
            Err(e) => !email_verified && e == CreateGuildError::EmailNotVerified,
        },
{
    if !email_verified {
        return Err(CreateGuildError::EmailNotVerified);
    }
    let name = truncate_chars(info.name.as_str(), 32);
    let description = match &info.description {
        Some(d) => truncate_chars(d.as_str(), 255),
        None => "No description.".to_owned(),
    };
    let nonce = truncate_chars(info.nonce.as_str(), 32);
    Ok(PreparedGuild { name, description, nonce })
}

} // verus!
