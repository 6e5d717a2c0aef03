//! Chat-bot logic for Twitch: the IRC line parser, the chat commands, the
//! JSON crawler that reads Twitch's web answers, and the credential helpers.

pub mod credentials;
pub mod text;
pub mod user;
pub mod oauth;
pub mod json;
pub mod logger;
pub mod irc;
pub mod irc_chat;
