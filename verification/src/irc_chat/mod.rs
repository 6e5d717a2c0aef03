//! The bot's IRC chat logic: what a line from Twitch's IRC server means and
//! what the bot answers.

pub mod channel_chatter_data;
pub mod commands;
pub mod parsers;
pub mod response_context;
pub mod session;
pub mod twitch_message_type;
pub mod twitch_user_message;
