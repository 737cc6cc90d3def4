//! What holds of every mention.
//!
//! The text of a mention depends on nothing but the kind and the number of
//! the identifier that is mentioned. A record is mentioned as the identifier
//! that it embeds is, and a reference as the value that it refers to.

use vstd::prelude::*;
use crate::channel::{
    CategoryChannel, Channel, Group, GuildChannel, PrivateChannel, TextChannel, VoiceChannel,
};
use crate::decimal::{decimal, lemma_decimal_injective};
use crate::format::{mention_text, MentionFormat};
use crate::guild::{Emoji, Member};
use crate::id::{ChannelId, EmojiId, RoleId, UserId};
use crate::mention::{spec_channel_id, spec_guild_channel_id, Mention};
use crate::user::{CurrentUser, User};

verus! {

/// The mention of the channel identifier with the number `n` has the text
/// `<#`, then the decimal numeral of `n`, then `>`.
pub proof fn channel_id_text(n: u64)
    ensures
        ChannelId(n).spec_mention().text() == seq!['<', '#'] + decimal(n as nat) + seq!['>'],
{
    MentionFormat::lemma_of_id(ChannelId(n));
}

/// The mention of the emoji identifier with the number `n` has the text
/// `<:emoji:`, then the decimal numeral of `n`, then `>`.
pub proof fn emoji_id_text(n: u64)
    ensures
        EmojiId(n).spec_mention().text() == seq!['<', ':', 'e', 'm', 'o', 'j', 'i', ':'] + decimal(
            n as nat,
        ) + seq!['>'],
{
    MentionFormat::lemma_of_id(EmojiId(n));
}

/// The mention of the role identifier with the number `n` has the text
/// `<@&`, then the decimal numeral of `n`, then `>`.
pub proof fn role_id_text(n: u64)
    ensures
        RoleId(n).spec_mention().text() == seq!['<', '@', '&'] + decimal(n as nat) + seq!['>'],
{
    MentionFormat::lemma_of_id(RoleId(n));
}

/// The mention of the user identifier with the number `n` has the text
/// `<@`, then the decimal numeral of `n`, then `>`.
pub proof fn user_id_text(n: u64)
    ensures
        UserId(n).spec_mention().text() == seq!['<', '@'] + decimal(n as nat) + seq!['>'],
{
    MentionFormat::lemma_of_id(UserId(n));
}

/// A category is mentioned as its identifier is.
pub proof fn category_channel_as_id(c: CategoryChannel)
    ensures
        c.spec_mention() == c.id.spec_mention(),
        c.spec_mention().text() == c.id.spec_mention().text(),
{
}

/// A group is mentioned as its identifier is.
pub proof fn group_as_id(c: Group)
    ensures
        c.spec_mention() == c.id.spec_mention(),
        c.spec_mention().text() == c.id.spec_mention().text(),
{
}

/// A private channel is mentioned as its identifier is.
pub proof fn private_channel_as_id(c: PrivateChannel)
    ensures
        c.spec_mention() == c.id.spec_mention(),
        c.spec_mention().text() == c.id.spec_mention().text(),
{
}

/// A text channel is mentioned as its identifier is.
pub proof fn text_channel_as_id(c: TextChannel)
    ensures
        c.spec_mention() == c.id.spec_mention(),
        c.spec_mention().text() == c.id.spec_mention().text(),
{
}

/// A voice channel is mentioned as its identifier is.
pub proof fn voice_channel_as_id(c: VoiceChannel)
    ensures
        c.spec_mention() == c.id.spec_mention(),
        c.spec_mention().text() == c.id.spec_mention().text(),
{
}

/// A guild channel is mentioned as the channel that it holds is, and so as
/// that channel's identifier: the mentions are the same, and so are their
/// texts.
pub proof fn guild_channel_as_inner(c: GuildChannel)
    ensures
        c.spec_mention() == spec_guild_channel_id(c).spec_mention(),
        c.spec_mention().text() == spec_guild_channel_id(c).spec_mention().text(),
        c matches GuildChannel::Category(inner) ==> c.spec_mention() == inner.spec_mention()
            && spec_guild_channel_id(c) == inner.id,
        c matches GuildChannel::Text(inner) ==> c.spec_mention() == inner.spec_mention()
            && spec_guild_channel_id(c) == inner.id,
        c matches GuildChannel::Voice(inner) ==> c.spec_mention() == inner.spec_mention()
            && spec_guild_channel_id(c) == inner.id,
{
}

/// A channel is mentioned as the channel that it holds is, and so as that
/// channel's identifier: the mentions are the same, and so are their texts.
pub proof fn channel_as_inner(c: Channel)
    ensures
        c.spec_mention() == spec_channel_id(c).spec_mention(),
        c.spec_mention().text() == spec_channel_id(c).spec_mention().text(),
        c matches Channel::Group(inner) ==> c.spec_mention() == inner.spec_mention()
            && spec_channel_id(c) == inner.id,
        c matches Channel::Guild(inner) ==> c.spec_mention() == inner.spec_mention()
            && spec_channel_id(c) == spec_guild_channel_id(inner),
        c matches Channel::Private(inner) ==> c.spec_mention() == inner.spec_mention()
            && spec_channel_id(c) == inner.id,
{
}

/// An emoji is mentioned as its identifier is.
pub proof fn emoji_as_id(e: Emoji)
    ensures
        e.spec_mention() == e.id.spec_mention(),
        e.spec_mention().text() == e.id.spec_mention().text(),
{
}

/// The signed-in user is mentioned as their identifier is.
pub proof fn current_user_as_id(u: CurrentUser)
    ensures
        u.spec_mention() == u.id.spec_mention(),
        u.spec_mention().text() == u.id.spec_mention().text(),
{
}

/// A user is mentioned as their identifier is.
pub proof fn user_as_id(u: User)
    ensures
        u.spec_mention() == u.id.spec_mention(),
        u.spec_mention().text() == u.id.spec_mention().text(),
{
}

/// A member is mentioned as the user who is the member is, and so as that
/// user's identifier.
pub proof fn member_as_user(m: Member)
    ensures
        m.spec_mention() == m.user.spec_mention(),
        m.spec_mention() == m.user.id.spec_mention(),
        m.spec_mention().text() == m.user.id.spec_mention().text(),
{
}

/// A reference to a channel identifier has the mention, and so the text, that the
/// value itself has.
pub proof fn channel_id_by_reference(x: ChannelId)
    ensures
        <&ChannelId as Mention<ChannelId>>::spec_mention(&&x) == x.spec_mention(),
        <&ChannelId as Mention<ChannelId>>::spec_mention(&&x).text() == x.spec_mention().text(),
{
}

/// A reference to a category has the mention, and so the text, that the
/// value itself has.
pub proof fn category_channel_by_reference(x: CategoryChannel)
    ensures
        <&CategoryChannel as Mention<ChannelId>>::spec_mention(&&x) == x.spec_mention(),
        <&CategoryChannel as Mention<ChannelId>>::spec_mention(&&x).text() == x.spec_mention().text(),
{
}

/// A reference to a channel has the mention, and so the text, that the
/// value itself has.
pub proof fn channel_by_reference(x: Channel)
    ensures
        <&Channel as Mention<ChannelId>>::spec_mention(&&x) == x.spec_mention(),
        <&Channel as Mention<ChannelId>>::spec_mention(&&x).text() == x.spec_mention().text(),
{
}

/// A reference to a group has the mention, and so the text, that the
/// value itself has.
pub proof fn group_by_reference(x: Group)
    ensures
        <&Group as Mention<ChannelId>>::spec_mention(&&x) == x.spec_mention(),
        <&Group as Mention<ChannelId>>::spec_mention(&&x).text() == x.spec_mention().text(),
{
}

/// A reference to a guild channel has the mention, and so the text, that the
/// value itself has.
pub proof fn guild_channel_by_reference(x: GuildChannel)
    ensures
        <&GuildChannel as Mention<ChannelId>>::spec_mention(&&x) == x.spec_mention(),
        <&GuildChannel as Mention<ChannelId>>::spec_mention(&&x).text() == x.spec_mention().text(),
{
}

/// A reference to a private channel has the mention, and so the text, that the
/// value itself has.
pub proof fn private_channel_by_reference(x: PrivateChannel)
    ensures
        <&PrivateChannel as Mention<ChannelId>>::spec_mention(&&x) == x.spec_mention(),
        <&PrivateChannel as Mention<ChannelId>>::spec_mention(&&x).text() == x.spec_mention().text(),
{
}

/// A reference to a text channel has the mention, and so the text, that the
/// value itself has.
pub proof fn text_channel_by_reference(x: TextChannel)
    ensures
        <&TextChannel as Mention<ChannelId>>::spec_mention(&&x) == x.spec_mention(),
        <&TextChannel as Mention<ChannelId>>::spec_mention(&&x).text() == x.spec_mention().text(),
{
}

/// A reference to a voice channel has the mention, and so the text, that the
/// value itself has.
pub proof fn voice_channel_by_reference(x: VoiceChannel)
    ensures
        <&VoiceChannel as Mention<ChannelId>>::spec_mention(&&x) == x.spec_mention(),
        <&VoiceChannel as Mention<ChannelId>>::spec_mention(&&x).text() == x.spec_mention().text(),
{
}

/// A reference to an emoji identifier has the mention, and so the text, that the
/// value itself has.
pub proof fn emoji_id_by_reference(x: EmojiId)
    ensures
        <&EmojiId as Mention<EmojiId>>::spec_mention(&&x) == x.spec_mention(),
        <&EmojiId as Mention<EmojiId>>::spec_mention(&&x).text() == x.spec_mention().text(),
{
}

/// A reference to an emoji has the mention, and so the text, that the
/// value itself has.
pub proof fn emoji_by_reference(x: Emoji)
    ensures
        <&Emoji as Mention<EmojiId>>::spec_mention(&&x) == x.spec_mention(),
        <&Emoji as Mention<EmojiId>>::spec_mention(&&x).text() == x.spec_mention().text(),
{
}

/// A reference to a role identifier has the mention, and so the text, that the
/// value itself has.
pub proof fn role_id_by_reference(x: RoleId)
    ensures
        <&RoleId as Mention<RoleId>>::spec_mention(&&x) == x.spec_mention(),
        <&RoleId as Mention<RoleId>>::spec_mention(&&x).text() == x.spec_mention().text(),
{
}

/// A reference to a user identifier has the mention, and so the text, that the
/// value itself has.
pub proof fn user_id_by_reference(x: UserId)
    ensures
        <&UserId as Mention<UserId>>::spec_mention(&&x) == x.spec_mention(),
        <&UserId as Mention<UserId>>::spec_mention(&&x).text() == x.spec_mention().text(),
{
}

/// A reference to the signed-in user has the mention, and so the text, that the
/// value itself has.
pub proof fn current_user_by_reference(x: CurrentUser)
    ensures
        <&CurrentUser as Mention<UserId>>::spec_mention(&&x) == x.spec_mention(),
        <&CurrentUser as Mention<UserId>>::spec_mention(&&x).text() == x.spec_mention().text(),
{
}

/// A reference to a user has the mention, and so the text, that the
/// value itself has.
pub proof fn user_by_reference(x: User)
    ensures
        <&User as Mention<UserId>>::spec_mention(&&x) == x.spec_mention(),
        <&User as Mention<UserId>>::spec_mention(&&x).text() == x.spec_mention().text(),
{
}

/// A reference to a member has the mention, and so the text, that the
/// value itself has.
pub proof fn member_by_reference(x: Member)
    ensures
        <&Member as Mention<UserId>>::spec_mention(&&x) == x.spec_mention(),
        <&Member as Mention<UserId>>::spec_mention(&&x).text() == x.spec_mention().text(),
{
}

/// Two channel mentions have the same text just when they mention the same
/// channel, and then they are the same mention.
pub proof fn channel_text_identifies(a: MentionFormat<ChannelId>, b: MentionFormat<ChannelId>)
    ensures
        a.text() == b.text() <==> a.id() == b.id(),
        a.id() == b.id() <==> a == b,
{
    if a.text() == b.text() {
        lemma_same_numeral(seq!['<', '#'], a.id().0 as nat, b.id().0 as nat);
    }
    a.lemma_id_of();
    b.lemma_id_of();
}

/// Two emoji mentions have the same text just when they mention the same
/// emoji, and then they are the same mention.
pub proof fn emoji_text_identifies(a: MentionFormat<EmojiId>, b: MentionFormat<EmojiId>)
    ensures
        a.text() == b.text() <==> a.id() == b.id(),
        a.id() == b.id() <==> a == b,
{
    if a.text() == b.text() {
        lemma_same_numeral(seq!['<', ':', 'e', 'm', 'o', 'j', 'i', ':'], a.id().0 as nat, b.id().0 as nat);
    }
    a.lemma_id_of();
    b.lemma_id_of();
}

/// Two role mentions have the same text just when they mention the same
/// role, and then they are the same mention.
pub proof fn role_text_identifies(a: MentionFormat<RoleId>, b: MentionFormat<RoleId>)
    ensures
        a.text() == b.text() <==> a.id() == b.id(),
        a.id() == b.id() <==> a == b,
{
    if a.text() == b.text() {
        lemma_same_numeral(seq!['<', '@', '&'], a.id().0 as nat, b.id().0 as nat);
    }
    a.lemma_id_of();
    b.lemma_id_of();
}

/// Two user mentions have the same text just when they mention the same
/// user, and then they are the same mention.
pub proof fn user_text_identifies(a: MentionFormat<UserId>, b: MentionFormat<UserId>)
    ensures
        a.text() == b.text() <==> a.id() == b.id(),
        a.id() == b.id() <==> a == b,
{
    if a.text() == b.text() {
        lemma_same_numeral(seq!['<', '@'], a.id().0 as nat, b.id().0 as nat);
    }
    a.lemma_id_of();
    b.lemma_id_of();
}

/// Texts that open alike and are equal hold the numeral of one number.
proof fn lemma_same_numeral(open: Seq<char>, a: nat, b: nat)
    requires
        mention_text(open, a) == mention_text(open, b),
    ensures
        a == b,
{
    let ta = mention_text(open, a);
    let tb = mention_text(open, b);
    let n = open.len() as int;
    assert(decimal(a) =~= ta.subrange(n, ta.len() - 1));
    assert(decimal(b) =~= tb.subrange(n, tb.len() - 1));
    lemma_decimal_injective(a, b);
}

} // verus!
