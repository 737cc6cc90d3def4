//! Identifiers, one type for each kind of entity that can be mentioned.
//!
//! An identifier is a 64-bit number tagged by its kind. The kinds are
//! distinct types, so that the number of a role is never read as the number
//! of a user.

use vstd::prelude::*;

verus! {

/// The identifier of a channel.
#[derive(Clone, Copy, Debug, PartialEq, Eq, Hash)]
pub struct ChannelId(pub u64);

/// The identifier of a custom emoji.
#[derive(Clone, Copy, Debug, PartialEq, Eq, Hash)]
pub struct EmojiId(pub u64);

/// The identifier of a role.
#[derive(Clone, Copy, Debug, PartialEq, Eq, Hash)]
pub struct RoleId(pub u64);

/// The identifier of a user.
#[derive(Clone, Copy, Debug, PartialEq, Eq, Hash)]
pub struct UserId(pub u64);

} // verus!
