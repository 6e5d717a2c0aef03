//! A chat message: who said what in which channel.

pub use crate::irc_chat::twitch_user_message::TwitchIrcUserMessage;
