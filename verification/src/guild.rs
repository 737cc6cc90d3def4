//! Records that belong to a guild, as far as a mention reads them.

use vstd::prelude::*;
use crate::id::EmojiId;
use crate::user::User;

verus! {

/// A custom emoji of a guild.
#[derive(Clone, Copy, Debug, PartialEq, Eq)]
pub struct Emoji {
    /// The emoji's identifier.
    pub id: EmojiId,
}

/// A member of a guild: a user together with what the guild knows of them.
#[derive(Clone, Copy, Debug, PartialEq, Eq)]
pub struct Member {
    /// The user who is the member.
    pub user: User,
}

} // verus!
