//! The chat commands the bot knows (`!shoutout`, `!lurk`, ...): their keys,
//! the table that maps keys to commands, and the replies they send.

pub mod command_key;
pub mod commands_map;
pub mod custom_commands;
pub mod replies;

pub use command_key::ChatCommandKey;
pub use commands_map::{NativeCommand, UserCommandsMap};
