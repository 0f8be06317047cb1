//! Stock avatars, assigned by identity.

use vstd::prelude::*;
use vstd::string::StrSliceExecFns;

verus! {

/// The four stock avatar colours.
#[derive(Clone, Copy, Debug, PartialEq, Eq, Structural)]
pub enum AvatarColour {
    Red,
    Green,
    Blue,
    Yellow,
}

impl AvatarColour {
    /// The asset file the colour is served from.
    pub fn asset_name(&self) -> (r: &str)
        ensures
            r@ == match self {
                AvatarColour::Red => "user_red.png"@,
                AvatarColour::Green => "user_green.png"@,
                AvatarColour::Blue => "user_blue.png"@,
                AvatarColour::Yellow => "user_yellow.png"@,
            },
    {
        match self {
            AvatarColour::Red => "user_red.png",
            AvatarColour::Green => "user_green.png",
            AvatarColour::Blue => "user_blue.png",
            AvatarColour::Yellow => "user_yellow.png",
        }
    }
}

/// The colour one identity character selects.  Identities are spelled in a
/// base-32 alphabet without `I`, `L`, `O` and `U`; any other character
/// selects nothing.
pub open spec fn spec_avatar_colour(c: char) -> Option<AvatarColour> {
    match c {
        '0' | '1' | '2' | '3' | '4' | '5' | '6' | '7' => Some(AvatarColour::Red),
        '8' | '9' | 'A' | 'B' | 'C' | 'D' | 'E' | 'F' => Some(AvatarColour::Green),
        'G' | 'H' | 'J' | 'K' | 'M' | 'N' | 'P' | 'Q' => Some(AvatarColour::Blue),
        'R' | 'S' | 'T' | 'V' | 'W' | 'X' | 'Y' | 'Z' => Some(AvatarColour::Yellow),
        _ => None,
    }
}

/// The colour one identity character selects.
pub fn avatar_colour(c: char) -> (r: Option<AvatarColour>)
    ensures
        r == spec_avatar_colour(c),
{
    match c {
        '0' | '1' | '2' | '3' | '4' | '5' | '6' | '7' => Some(AvatarColour::Red),
        '8' | '9' | 'A' | 'B' | 'C' | 'D' | 'E' | 'F' => Some(AvatarColour::Green),
        'G' | 'H' | 'J' | 'K' | 'M' | 'N' | 'P' | 'Q' => Some(AvatarColour::Blue),
        'R' | 'S' | 'T' | 'V' | 'W' | 'X' | 'Y' | 'Z' => Some(AvatarColour::Yellow),
        _ => None,
    }
}

/// The default avatar colour for an identity: selected by its 26th
/// character, or nothing when the identity is shorter or spelled outside
/// the alphabet.
pub fn default_avatar_colour(id: &str) -> (r: Option<AvatarColour>)
    ensures
        r == if id@.len() > 25 {
            spec_avatar_colour(id@[25])
        } else {
            None::<AvatarColour>
        },
{
    let len = id.unicode_len();
    if len <= 25 {
        return None;
    }
    avatar_colour(id.get_char(25))
}

} // verus!
