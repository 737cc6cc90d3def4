use rarity_mention::channel::{
    CategoryChannel, Channel, Group, GuildChannel, PrivateChannel, TextChannel, VoiceChannel,
};
use rarity_mention::guild::{Emoji, Member};
use rarity_mention::id::{ChannelId, EmojiId, RoleId, UserId};
use rarity_mention::user::{CurrentUser, User};
use rarity_mention::{Mention, MentionFormat};

#[test]
fn test_mention_format_channel_id() {
    assert_eq!("<#123>", ChannelId(123).mention().to_string());
}

#[test]
fn test_mention_format_emoji_id() {
    assert_eq!("<:emoji:123>", EmojiId(123).mention().to_string());
}

#[test]
fn test_mention_format_role_id() {
    assert_eq!("<@&123>", RoleId(123).mention().to_string());
}

#[test]
fn test_mention_format_user_id() {
    assert_eq!("<@123>", UserId(123).mention().to_string());
}

#[test]
fn member_is_mentioned_as_its_user() {
    let member = Member { user: User { id: UserId(456) } };
    assert_eq!("<@456>", member.mention().to_string());
    assert_eq!(member.user.mention(), member.mention());
    assert_eq!(member.user.id.mention(), member.mention());
}

#[test]
fn text_channel_is_mentioned_as_its_id() {
    let text = TextChannel { id: ChannelId(789) };
    assert_eq!("<#789>", text.mention().to_string());
    assert_eq!(text.id.mention(), text.mention());
}

#[test]
fn guild_channel_is_mentioned_as_what_it_holds() {
    let category = GuildChannel::Category(CategoryChannel { id: ChannelId(11) });
    let text = GuildChannel::Text(TextChannel { id: ChannelId(22) });
    let voice = GuildChannel::Voice(VoiceChannel { id: ChannelId(33) });
    assert_eq!("<#11>", category.mention().to_string());
    assert_eq!("<#22>", text.mention().to_string());
    assert_eq!("<#33>", voice.mention().to_string());
}

#[test]
fn channel_is_mentioned_as_what_it_holds() {
    let group = Channel::Group(Group { id: ChannelId(1) });
    let private = Channel::Private(PrivateChannel { id: ChannelId(2) });
    let category = Channel::Guild(GuildChannel::Category(CategoryChannel { id: ChannelId(3) }));
    let text = Channel::Guild(GuildChannel::Text(TextChannel { id: ChannelId(4) }));
    let voice = Channel::Guild(GuildChannel::Voice(VoiceChannel { id: ChannelId(5) }));
    assert_eq!("<#1>", group.mention().to_string());
    assert_eq!("<#2>", private.mention().to_string());
    assert_eq!("<#3>", category.mention().to_string());
    assert_eq!("<#4>", text.mention().to_string());
    assert_eq!("<#5>", voice.mention().to_string());
}

#[test]
fn channel_records_are_mentioned_as_their_ids() {
    assert_eq!("<#71>", CategoryChannel { id: ChannelId(71) }.mention().to_string());
    assert_eq!("<#72>", Group { id: ChannelId(72) }.mention().to_string());
    assert_eq!("<#73>", PrivateChannel { id: ChannelId(73) }.mention().to_string());
    assert_eq!("<#74>", VoiceChannel { id: ChannelId(74) }.mention().to_string());
}

#[test]
fn user_and_emoji_records_are_mentioned_as_their_ids() {
    assert_eq!("<@81>", CurrentUser { id: UserId(81) }.mention().to_string());
    assert_eq!("<@82>", User { id: UserId(82) }.mention().to_string());
    assert_eq!("<:emoji:83>", Emoji { id: EmojiId(83) }.mention().to_string());
}

#[test]
fn zero_is_written_with_one_digit() {
    assert_eq!("<#0>", ChannelId(0).mention().to_string());
    assert_eq!("<:emoji:0>", EmojiId(0).mention().to_string());
    assert_eq!("<@&0>", RoleId(0).mention().to_string());
    assert_eq!("<@0>", UserId(0).mention().to_string());
}

#[test]
fn largest_identifier_is_written_in_full() {
    assert_eq!("<#18446744073709551615>", ChannelId(u64::MAX).mention().to_string());
    assert_eq!("<@18446744073709551615>", UserId(u64::MAX).mention().to_string());
}

#[test]
fn digits_keep_their_order_and_their_zeros() {
    assert_eq!("<@&9>", RoleId(9).mention().to_string());
    assert_eq!("<@&10>", RoleId(10).mention().to_string());
    assert_eq!("<@&1002003004>", RoleId(1_002_003_004).mention().to_string());
    assert_eq!("<@&381870129706958858>", RoleId(381_870_129_706_958_858).mention().to_string());
}

fn by_bound<T, M: Mention<T>>(value: M) -> MentionFormat<T> {
    value.mention()
}

#[test]
fn reference_is_mentioned_as_the_value() {
    let id = ChannelId(5);
    assert_eq!(by_bound::<ChannelId, ChannelId>(id), by_bound::<ChannelId, &ChannelId>(&id));
    let emoji = Emoji { id: EmojiId(6) };
    assert_eq!(by_bound::<EmojiId, Emoji>(emoji), by_bound::<EmojiId, &Emoji>(&emoji));
    let role = RoleId(7);
    assert_eq!(by_bound::<RoleId, RoleId>(role), by_bound::<RoleId, &RoleId>(&role));
    let member = Member { user: User { id: UserId(8) } };
    assert_eq!(by_bound::<UserId, Member>(member), by_bound::<UserId, &Member>(&member));
    assert_eq!("<@8>", by_bound::<UserId, &Member>(&member).to_string());
    let channel = Channel::Guild(GuildChannel::Voice(VoiceChannel { id: ChannelId(9) }));
    assert_eq!("<#9>", by_bound::<ChannelId, &Channel>(&channel).to_string());
    assert_eq!("<#9>", by_bound::<ChannelId, Channel>(channel).to_string());
}

#[test]
fn every_type_is_mentioned_by_reference() {
    assert_eq!("<#1>", by_bound::<ChannelId, &ChannelId>(&ChannelId(1)).to_string());
    assert_eq!(
        "<#2>",
        by_bound::<ChannelId, &CategoryChannel>(&CategoryChannel { id: ChannelId(2) }).to_string()
    );
    assert_eq!("<#3>", by_bound::<ChannelId, &Group>(&Group { id: ChannelId(3) }).to_string());
    assert_eq!(
        "<#4>",
        by_bound::<ChannelId, &GuildChannel>(&GuildChannel::Text(TextChannel { id: ChannelId(4) }))
            .to_string()
    );
    assert_eq!(
        "<#5>",
        by_bound::<ChannelId, &PrivateChannel>(&PrivateChannel { id: ChannelId(5) }).to_string()
    );
    assert_eq!(
        "<#6>",
        by_bound::<ChannelId, &TextChannel>(&TextChannel { id: ChannelId(6) }).to_string()
    );
    assert_eq!(
        "<#7>",
        by_bound::<ChannelId, &VoiceChannel>(&VoiceChannel { id: ChannelId(7) }).to_string()
    );
    assert_eq!("<:emoji:8>", by_bound::<EmojiId, &EmojiId>(&EmojiId(8)).to_string());
    assert_eq!("<@9>", by_bound::<UserId, &UserId>(&UserId(9)).to_string());
    assert_eq!(
        "<@10>",
        by_bound::<UserId, &CurrentUser>(&CurrentUser { id: UserId(10) }).to_string()
    );
    assert_eq!("<@11>", by_bound::<UserId, &User>(&User { id: UserId(11) }).to_string());
}

#[test]
fn same_identifier_gives_same_text() {
    let first = UserId(42).mention().to_string();
    let second = UserId(42).mention().to_string();
    assert_eq!(first, second);
    assert_ne!(UserId(42).mention().to_string(), UserId(43).mention().to_string());
    assert_ne!(UserId(42).mention().to_string(), RoleId(42).mention().to_string());
}

#[test]
fn text_agrees_with_the_model_crate() {
    let numbers: Vec<u64> = vec![0, 1, 9, 10, 99, 100, 123, 4_294_967_296, u64::MAX - 1, u64::MAX];
    for n in numbers {
        assert_eq!(
            format!("<#{}>", twilight_model::id::ChannelId(n)),
            ChannelId(n).mention().to_string()
        );
        assert_eq!(
            format!("<:emoji:{}>", twilight_model::id::EmojiId(n)),
            EmojiId(n).mention().to_string()
        );
        assert_eq!(
            format!("<@&{}>", twilight_model::id::RoleId(n)),
            RoleId(n).mention().to_string()
        );
        assert_eq!(
            format!("<@{}>", twilight_model::id::UserId(n)),
            UserId(n).mention().to_string()
        );
    }
}

#[test]
fn numeral_is_appended_to_what_is_there() {
    let mut out = String::from("n=");
    rarity_mention::decimal::push_decimal(&mut out, 0);
    assert_eq!("n=0", out);
    rarity_mention::decimal::push_decimal(&mut out, 907);
    assert_eq!("n=0907", out);
    let mut fresh = String::new();
    rarity_mention::decimal::push_decimal(&mut fresh, 18_446_744_073_709_551_615);
    assert_eq!("18446744073709551615", fresh);
}
