//! The PubSub reader, under a second module name.

pub use crate::irc::parsers::pubsub::default_message_parser::DefaultPubSubParser;
