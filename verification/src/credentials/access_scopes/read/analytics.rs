//! Scopes that let the bot read analytics.

use vstd::prelude::*;

verus! {

pub const EXTENSIONS: &'static str = "analytics:read:extensions";

pub const GAMES: &'static str = "analytics:read:games";

} // verus!
