//! Mention strings for chat entities.
//!
//! Given the identifier of a channel, an emoji, a role or a user, or a record
//! that embeds one, this crate renders the escape sequence that a chat client
//! shows as a clickable mention: `<#ID>`, `<:emoji:ID>`, `<@&ID>` or `<@ID>`,
//! where `ID` is the decimal numeral of the identifier.
//!
//! [`Mention::mention`] makes the mention of a value, and `to_string` on the
//! [`MentionFormat`] that it returns renders the text.

pub mod channel;
pub mod decimal;
pub mod format;
pub mod guild;
pub mod id;
pub mod laws;
pub mod mention;
pub mod user;

pub use crate::format::MentionFormat;
pub use crate::mention::Mention;
