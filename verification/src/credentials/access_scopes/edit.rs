//! Scopes that let the bot change things.

use vstd::prelude::*;

verus! {

pub const BROADCAST: &'static str = "user:edit:broadcast";

pub const CLIPS: &'static str = "clips:edit";

pub const USER: &'static str = "user:edit";

pub const CHAT: &'static str = "chat:edit";

pub const WHISPERS: &'static str = "whispers:edit";

} // verus!
