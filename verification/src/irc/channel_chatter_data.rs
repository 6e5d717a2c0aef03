//! Who is in a channel's chat, read from Twitch's chatters document.

pub use crate::irc_chat::channel_chatter_data::ChatterData;
