//! Scopes that let the bot read.

pub mod analytics;

use vstd::prelude::*;

verus! {

pub const BITS: &'static str = "bits:read";

pub const BROADCAST: &'static str = "user:read:broadcast";

pub const EMAIL_ADDRESS: &'static str = "user:read:email";

pub const SUBSCRIPTIONS: &'static str = "channel:read:subscriptions";

pub const CHAT: &'static str = "chat:read";

pub const WHISPERS: &'static str = "whispers:read";

} // verus!
