//! Readers for what Twitch sends.

pub mod default_irc_message_parser;
pub mod channel_points_event;
pub mod listen_request;
