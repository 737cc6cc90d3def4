//! What can be mentioned, and as what.

use vstd::prelude::*;
use crate::channel::{
    CategoryChannel, Channel, Group, GuildChannel, PrivateChannel, TextChannel, VoiceChannel,
};
use crate::format::MentionFormat;
use crate::guild::{Emoji, Member};
use crate::id::{ChannelId, EmojiId, RoleId, UserId};
use crate::user::{CurrentUser, User};

verus! {

/// A value that can be mentioned through an identifier of type `T`: such an
/// identifier itself, or a record that embeds exactly one.
pub trait Mention<T> {
    /// The mention of this value.
    spec fn spec_mention(&self) -> MentionFormat<T>;

    /// Makes the mention of this value.
    fn mention(&self) -> (m: MentionFormat<T>)
        ensures
            m == self.spec_mention(),
    ;
}

/// The identifier of a guild channel, whichever sort of channel it is.
pub open spec fn spec_guild_channel_id(channel: GuildChannel) -> ChannelId {
    match channel {
        GuildChannel::Category(c) => c.id,
        GuildChannel::Text(c) => c.id,
        GuildChannel::Voice(c) => c.id,
    }
}

/// The identifier of a channel, whichever sort of channel it is.
pub open spec fn spec_channel_id(channel: Channel) -> ChannelId {
    match channel {
        Channel::Group(group) => group.id,
        Channel::Guild(guild) => spec_guild_channel_id(guild),
        Channel::Private(private) => private.id,
    }
}

/// Reads the identifier of a guild channel.
fn guild_channel_id(channel: &GuildChannel) -> (id: ChannelId)
    ensures
        id == spec_guild_channel_id(*channel),
{
    match channel {
        GuildChannel::Category(c) => c.id,
        GuildChannel::Text(c) => c.id,
        GuildChannel::Voice(c) => c.id,
    }
}

/// A channel identifier is mentioned as itself.
impl Mention<ChannelId> for ChannelId {
    open spec fn spec_mention(&self) -> MentionFormat<ChannelId> {
        MentionFormat::of(*self)
    }

    fn mention(&self) -> (m: MentionFormat<ChannelId>) {
        MentionFormat::new(*self)
    }
}

/// A reference to a channel identifier is mentioned as the identifier is.
impl<'a> Mention<ChannelId> for &'a ChannelId {
    open spec fn spec_mention(&self) -> MentionFormat<ChannelId> {
        (**self).spec_mention()
    }

    fn mention(&self) -> (m: MentionFormat<ChannelId>) {
        (*self).mention()
    }
}

/// A channel of any sort is mentioned by the identifier of the channel that
/// it holds.
impl Mention<ChannelId> for Channel {
    open spec fn spec_mention(&self) -> MentionFormat<ChannelId> {
        MentionFormat::of(spec_channel_id(*self))
    }

    fn mention(&self) -> (m: MentionFormat<ChannelId>) {
        MentionFormat::new(
            match self {
                Channel::Group(group) => group.id,
                Channel::Guild(guild) => guild_channel_id(guild),
                Channel::Private(private) => private.id,
            },
        )
    }
}

/// A reference to a channel is mentioned as the channel is.
impl<'a> Mention<ChannelId> for &'a Channel {
    open spec fn spec_mention(&self) -> MentionFormat<ChannelId> {
        (**self).spec_mention()
    }

    fn mention(&self) -> (m: MentionFormat<ChannelId>) {
        (*self).mention()
    }
}

/// A category is mentioned by its identifier.
impl Mention<ChannelId> for CategoryChannel {
    open spec fn spec_mention(&self) -> MentionFormat<ChannelId> {
        MentionFormat::of(self.id)
    }

    fn mention(&self) -> (m: MentionFormat<ChannelId>) {
        MentionFormat::new(self.id)
    }
}

/// A reference to a category is mentioned as the category is.
impl<'a> Mention<ChannelId> for &'a CategoryChannel {
    open spec fn spec_mention(&self) -> MentionFormat<ChannelId> {
        (**self).spec_mention()
    }

    fn mention(&self) -> (m: MentionFormat<ChannelId>) {
        (*self).mention()
    }
}

/// The signed-in user is mentioned by their identifier.
impl Mention<UserId> for CurrentUser {
    open spec fn spec_mention(&self) -> MentionFormat<UserId> {
        MentionFormat::of(self.id)
    }

    fn mention(&self) -> (m: MentionFormat<UserId>) {
        MentionFormat::new(self.id)
    }
}

/// A reference to the signed-in user is mentioned as the user is.
impl<'a> Mention<UserId> for &'a CurrentUser {
    open spec fn spec_mention(&self) -> MentionFormat<UserId> {
        (**self).spec_mention()
    }

    fn mention(&self) -> (m: MentionFormat<UserId>) {
        (*self).mention()
    }
}

/// An emoji identifier is mentioned as itself.
impl Mention<EmojiId> for EmojiId {
    open spec fn spec_mention(&self) -> MentionFormat<EmojiId> {
        MentionFormat::of(*self)
    }

    fn mention(&self) -> (m: MentionFormat<EmojiId>) {
        MentionFormat::new(*self)
    }
}

/// A reference to an emoji identifier is mentioned as the identifier is.
impl<'a> Mention<EmojiId> for &'a EmojiId {
    open spec fn spec_mention(&self) -> MentionFormat<EmojiId> {
        (**self).spec_mention()
    }

    fn mention(&self) -> (m: MentionFormat<EmojiId>) {
        (*self).mention()
    }
}

/// An emoji is mentioned by its identifier.
impl Mention<EmojiId> for Emoji {
    open spec fn spec_mention(&self) -> MentionFormat<EmojiId> {
        MentionFormat::of(self.id)
    }

    fn mention(&self) -> (m: MentionFormat<EmojiId>) {
        MentionFormat::new(self.id)
    }
}

/// A reference to an emoji is mentioned as the emoji is.
impl<'a> Mention<EmojiId> for &'a Emoji {
    open spec fn spec_mention(&self) -> MentionFormat<EmojiId> {
        (**self).spec_mention()
    }

    fn mention(&self) -> (m: MentionFormat<EmojiId>) {
        (*self).mention()
    }
}

/// A group is mentioned by its identifier.
impl Mention<ChannelId> for Group {
    open spec fn spec_mention(&self) -> MentionFormat<ChannelId> {
        MentionFormat::of(self.id)
    }

    fn mention(&self) -> (m: MentionFormat<ChannelId>) {
        MentionFormat::new(self.id)
    }
}

/// A reference to a group is mentioned as the group is.
impl<'a> Mention<ChannelId> for &'a Group {
    open spec fn spec_mention(&self) -> MentionFormat<ChannelId> {
        (**self).spec_mention()
    }

    fn mention(&self) -> (m: MentionFormat<ChannelId>) {
        (*self).mention()
    }
}

/// A guild channel is mentioned by the identifier of the channel that it holds.
impl Mention<ChannelId> for GuildChannel {
    open spec fn spec_mention(&self) -> MentionFormat<ChannelId> {
        MentionFormat::of(spec_guild_channel_id(*self))
    }

    fn mention(&self) -> (m: MentionFormat<ChannelId>) {
        MentionFormat::new(guild_channel_id(self))
    }
}

/// A reference to a guild channel is mentioned as the guild channel is.
impl<'a> Mention<ChannelId> for &'a GuildChannel {
    open spec fn spec_mention(&self) -> MentionFormat<ChannelId> {
        (**self).spec_mention()
    }

    fn mention(&self) -> (m: MentionFormat<ChannelId>) {
        (*self).mention()
    }
}

/// A member is mentioned by the identifier of the user who is the member.
impl Mention<UserId> for Member {
    open spec fn spec_mention(&self) -> MentionFormat<UserId> {
        MentionFormat::of(self.user.id)
    }

    fn mention(&self) -> (m: MentionFormat<UserId>) {
        MentionFormat::new(self.user.id)
    }
}

/// A reference to a member is mentioned as the member is.
impl<'a> Mention<UserId> for &'a Member {
    open spec fn spec_mention(&self) -> MentionFormat<UserId> {
        (**self).spec_mention()
    }

    fn mention(&self) -> (m: MentionFormat<UserId>) {
        (*self).mention()
    }
}

/// A private channel is mentioned by its identifier.
impl Mention<ChannelId> for PrivateChannel {
    open spec fn spec_mention(&self) -> MentionFormat<ChannelId> {
        MentionFormat::of(self.id)
    }

    fn mention(&self) -> (m: MentionFormat<ChannelId>) {
        MentionFormat::new(self.id)
    }
}

/// A reference to a private channel is mentioned as the channel is.
impl<'a> Mention<ChannelId> for &'a PrivateChannel {
    open spec fn spec_mention(&self) -> MentionFormat<ChannelId> {
        (**self).spec_mention()
    }

    fn mention(&self) -> (m: MentionFormat<ChannelId>) {
        (*self).mention()
    }
}

/// A role identifier is mentioned as itself.
impl Mention<RoleId> for RoleId {
    open spec fn spec_mention(&self) -> MentionFormat<RoleId> {
        MentionFormat::of(*self)
    }

    fn mention(&self) -> (m: MentionFormat<RoleId>) {
        MentionFormat::new(*self)
    }
}

/// A reference to a role identifier is mentioned as the identifier is.
impl<'a> Mention<RoleId> for &'a RoleId {
    open spec fn spec_mention(&self) -> MentionFormat<RoleId> {
        (**self).spec_mention()
    }

    fn mention(&self) -> (m: MentionFormat<RoleId>) {
        (*self).mention()
    }
}

/// A text channel is mentioned by its identifier.
impl Mention<ChannelId> for TextChannel {
    open spec fn spec_mention(&self) -> MentionFormat<ChannelId> {
        MentionFormat::of(self.id)
    }

    fn mention(&self) -> (m: MentionFormat<ChannelId>) {
        MentionFormat::new(self.id)
    }
}

/// A reference to a text channel is mentioned as the channel is.
impl<'a> Mention<ChannelId> for &'a TextChannel {
    open spec fn spec_mention(&self) -> MentionFormat<ChannelId> {
        (**self).spec_mention()
    }

    fn mention(&self) -> (m: MentionFormat<ChannelId>) {
        (*self).mention()
    }
}

/// A user identifier is mentioned as itself.
impl Mention<UserId> for UserId {
    open spec fn spec_mention(&self) -> MentionFormat<UserId> {
        MentionFormat::of(*self)
    }

    fn mention(&self) -> (m: MentionFormat<UserId>) {
        MentionFormat::new(*self)
    }
}

/// A reference to a user identifier is mentioned as the identifier is.
impl<'a> Mention<UserId> for &'a UserId {
    open spec fn spec_mention(&self) -> MentionFormat<UserId> {
        (**self).spec_mention()
    }

    fn mention(&self) -> (m: MentionFormat<UserId>) {
        (*self).mention()
    }
}

/// A user is mentioned by their identifier.
impl Mention<UserId> for User {
    open spec fn spec_mention(&self) -> MentionFormat<UserId> {
        MentionFormat::of(self.id)
    }

    fn mention(&self) -> (m: MentionFormat<UserId>) {
        MentionFormat::new(self.id)
    }
}

/// A reference to a user is mentioned as the user is.
impl<'a> Mention<UserId> for &'a User {
    open spec fn spec_mention(&self) -> MentionFormat<UserId> {
        (**self).spec_mention()
    }

    fn mention(&self) -> (m: MentionFormat<UserId>) {
        (*self).mention()
    }
}

/// A voice channel is mentioned by its identifier.
impl Mention<ChannelId> for VoiceChannel {
    open spec fn spec_mention(&self) -> MentionFormat<ChannelId> {
        MentionFormat::of(self.id)
    }

    fn mention(&self) -> (m: MentionFormat<ChannelId>) {
        MentionFormat::new(self.id)
    }
}

/// A reference to a voice channel is mentioned as the channel is.
impl<'a> Mention<ChannelId> for &'a VoiceChannel {
    open spec fn spec_mention(&self) -> MentionFormat<ChannelId> {
        (**self).spec_mention()
    }

    fn mention(&self) -> (m: MentionFormat<ChannelId>) {
        (*self).mention()
    }
}

} // verus!
