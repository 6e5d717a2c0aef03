use crate::credentials::client_id::ClientId;
use crate::credentials::client_secret::ClientSecret;
use vstd::prelude::*;

verus! {

/// Where Twitch sends the browser back after the bot's user signs in.
pub const REDIRECT_URI: &'static str = "http://127.0.0.1:7878/";

/// The bot's application credentials.
pub struct BotUserCredentials {
    pub client_id: ClientId,
    pub client_secret: ClientSecret,
}

impl BotUserCredentials {
    pub fn new(new_id: ClientId, new_secret: ClientSecret) -> (c: BotUserCredentials)
        ensures
            c.client_id@ == new_id@,
            c.client_secret.value@ == new_secret.value@,
    {
        BotUserCredentials { client_id: new_id, client_secret: new_secret }
    }
}

} // verus!
