//! The decision behind bot creation.

use vstd::prelude::*;

verus! {

/// Request data for creating a bot.
#[derive(Clone, Debug)]
pub struct Data {
    pub name: String,
}

/// Why a bot cannot be created for this caller.
#[derive(Clone, Copy, Debug, PartialEq, Eq, Structural)]
pub enum CreateBotError {
    /// Bots cannot own bots.
    IsBot,
    /// The caller already owns as many bots as the cap allows.
    ReachedMaximumBots,
    /// The requested name is already in use.
    UsernameTaken,
}

/// Decide a create-bot request from the loaded facts: whether the caller is
/// itself a bot, how many bots the caller owns against the cap, and whether
/// the requested name is taken.  The checks apply in that order and the
/// first failing one decides; `None` means the bot may be created.
pub fn create_bot_checks(
    caller_is_bot: bool,
    owned_bots: u64,
    max_bots: u64,
    username_taken: bool,
) -> (r: Option<CreateBotError>)
    ensures
        r == if caller_is_bot {
            Some(CreateBotError::IsBot)
        } else if owned_bots >= max_bots {
            Some(CreateBotError::ReachedMaximumBots)
        } else if username_taken {
            Some(CreateBotError::UsernameTaken)
        } else {
            None::<CreateBotError>
        },
{
    if caller_is_bot {
        Some(CreateBotError::IsBot)
    } else if owned_bots >= max_bots {
        Some(CreateBotError::ReachedMaximumBots)
    } else if username_taken {
        Some(CreateBotError::UsernameTaken)
    } else {
        None
    }
}

} // verus!
