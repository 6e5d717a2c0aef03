//! The PubSub reader.

pub mod default_message_parser;
