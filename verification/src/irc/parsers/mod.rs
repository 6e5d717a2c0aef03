//! Readers for what Twitch's PubSub service sends.

pub mod default_pubsub_message_parser;
pub mod pubsub;
pub mod pubsub_listen_request;
