//! The bot's Twitch application credentials and the OAuth scopes it asks for.

pub mod access_scopes;
pub mod bot_user_credentials;
pub mod client_id;
pub mod client_secret;
