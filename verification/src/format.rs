//! The mention of an identifier, and its text.

use vstd::prelude::*;
use crate::decimal::{decimal, push_decimal};
use crate::id::{ChannelId, EmojiId, RoleId, UserId};

verus! {

/// The text of a mention: `open`, then the decimal numeral of `id`, then `>`.
pub open spec fn mention_text(open: Seq<char>, id: nat) -> Seq<char> {
    open + decimal(id) + seq!['>']
}

/// What opens the mention of a channel: `<#`.
pub open spec fn channel_open() -> Seq<char> {
    seq!['<', '#']
}

/// What opens the mention of an emoji: `<:emoji:`.
pub open spec fn emoji_open() -> Seq<char> {
    seq!['<', ':', 'e', 'm', 'o', 'j', 'i', ':']
}

/// What opens the mention of a role: `<@&`.
pub open spec fn role_open() -> Seq<char> {
    seq!['<', '@', '&']
}

/// What opens the mention of a user: `<@`.
pub open spec fn user_open() -> Seq<char> {
    seq!['<', '@']
}

/// The mention of the identifier that it holds. The identifier's type says
/// what kind of entity is mentioned, and so which text the mention has.
#[derive(Clone, Copy, Debug, PartialEq, Eq)]
pub struct MentionFormat<T>(T);

impl<T> MentionFormat<T> {
    /// The mention of `id`.
    pub closed spec fn of(id: T) -> Self {
        MentionFormat(id)
    }

    /// The identifier that is mentioned.
    pub closed spec fn id(self) -> T {
        self.0
    }

    /// The mention of `id` mentions `id`.
    pub broadcast proof fn lemma_of_id(id: T)
        ensures
            (#[trigger] Self::of(id)).id() == id,
    {
    }

    /// A mention is the mention of the identifier that it mentions, so that
    /// two mentions of one identifier are the same mention.
    pub proof fn lemma_id_of(self)
        ensures
            Self::of(self.id()) == self,
    {
    }

    /// Makes the mention of `id`.
    pub(crate) fn new(id: T) -> (m: Self)
        ensures
            m == Self::of(id),
    {
        MentionFormat(id)
    }
}

/// Builds the text of a mention from what opens it and the identifier's number.
fn render(open: &str, id: u64) -> (s: String)
    ensures
        s@ == mention_text(open@, id as nat),
{
    let mut s = String::from_str(open);
    push_decimal(&mut s, id);
    proof {
        reveal_strlit(">");
        assert(">"@ =~= seq!['>']);
    }
    s.append(">");
    s
}

impl MentionFormat<ChannelId> {
    /// The text of the mention of a channel: `<#ID>`.
    pub open spec fn text(self) -> Seq<char> {
        mention_text(channel_open(), self.id().0 as nat)
    }

    /// Renders the mention as text.
    pub fn to_string(&self) -> (s: String)
        ensures
            s@ == self.text(),
    {
        proof {
            reveal_strlit("<#");
            assert("<#"@ =~= channel_open());
        }
        render("<#", self.0.0)
    }
}

impl MentionFormat<EmojiId> {
    /// The text of the mention of an emoji: `<:emoji:ID>`.
    pub open spec fn text(self) -> Seq<char> {
        mention_text(emoji_open(), self.id().0 as nat)
    }

    /// Renders the mention as text.
    pub fn to_string(&self) -> (s: String)
        ensures
            s@ == self.text(),
    {
        proof {
            reveal_strlit("<:emoji:");
            assert("<:emoji:"@ =~= emoji_open());
        }
        render("<:emoji:", self.0.0)
    }
}

impl MentionFormat<RoleId> {
    /// The text of the mention of a role: `<@&ID>`.
    pub open spec fn text(self) -> Seq<char> {
        mention_text(role_open(), self.id().0 as nat)
    }

    /// Renders the mention as text.
    pub fn to_string(&self) -> (s: String)
        ensures
            s@ == self.text(),
    {
        proof {
            reveal_strlit("<@&");
            assert("<@&"@ =~= role_open());
        }
        render("<@&", self.0.0)
    }
}

impl MentionFormat<UserId> {
    /// The text of the mention of a user: `<@ID>`.
    pub open spec fn text(self) -> Seq<char> {
        mention_text(user_open(), self.id().0 as nat)
    }

    /// Renders the mention as text.
    pub fn to_string(&self) -> (s: String)
        ensures
            s@ == self.text(),
    {
        proof {
            reveal_strlit("<@");
            assert("<@"@ =~= user_open());
        }
        render("<@", self.0.0)
    }
}

} // verus!
