//! Records of channels, as far as a mention reads them.

use vstd::prelude::*;
use crate::id::ChannelId;

verus! {

/// A category that groups the channels of a guild.
#[derive(Clone, Copy, Debug, PartialEq, Eq)]
pub struct CategoryChannel {
    /// The channel's identifier.
    pub id: ChannelId,
}

/// A direct-message channel among several users.
#[derive(Clone, Copy, Debug, PartialEq, Eq)]
pub struct Group {
    /// The channel's identifier.
    pub id: ChannelId,
}

/// A direct-message channel between two users.
#[derive(Clone, Copy, Debug, PartialEq, Eq)]
pub struct PrivateChannel {
    /// The channel's identifier.
    pub id: ChannelId,
}

/// A text channel of a guild.
#[derive(Clone, Copy, Debug, PartialEq, Eq)]
pub struct TextChannel {
    /// The channel's identifier.
    pub id: ChannelId,
}

/// A voice channel of a guild.
#[derive(Clone, Copy, Debug, PartialEq, Eq)]
pub struct VoiceChannel {
    /// The channel's identifier.
    pub id: ChannelId,
}

/// A channel of a guild, of any sort.
#[derive(Clone, Copy, Debug, PartialEq, Eq)]
pub enum GuildChannel {
    Category(CategoryChannel),
    Text(TextChannel),
    Voice(VoiceChannel),
}

/// A channel of any sort.
#[derive(Clone, Copy, Debug, PartialEq, Eq)]
pub enum Channel {
    Group(Group),
    Guild(GuildChannel),
    Private(PrivateChannel),
}

} // verus!
