//! IRC logic around a reply context that knows the bot's own account: the
//! commands that queue their replies in it, and the PubSub reader for
//! channel-points events.

pub mod channel_chatter_data;
pub mod commands;
pub mod parsers;
pub mod response_context;
pub mod twitch_user_message;
