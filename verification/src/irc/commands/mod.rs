//! Commands that queue their replies in the account-aware reply context.

pub mod add_custom_text_command;
pub mod shoutout;
pub mod socials;
