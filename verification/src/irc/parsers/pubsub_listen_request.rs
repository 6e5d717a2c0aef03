//! The request that subscribes a PubSub connection to topics.

pub use crate::irc_chat::parsers::listen_request::PubsubListenRequest;
