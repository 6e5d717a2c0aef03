//! The OAuth scopes the bot asks for, joined by `+` as Twitch's
//! authorization URL takes them.

pub mod edit;
pub mod read;

use vstd::prelude::*;

verus! {

pub const MODERATE: &'static str = "channel:moderate";

/// The analytics scopes.
pub open spec fn analytics_scopes() -> Seq<char> {
    read::analytics::EXTENSIONS@ + "+"@ + read::analytics::GAMES@
}

/// The read scopes.
pub open spec fn read_scopes() -> Seq<char> {
    read::BITS@ + "+"@ + read::BROADCAST@ + "+"@ + read::EMAIL_ADDRESS@ + "+"@
        + read::SUBSCRIPTIONS@ + "+"@ + read::CHAT@ + "+"@ + read::WHISPERS@
}

/// The write scopes.
pub open spec fn write_scopes() -> Seq<char> {
    edit::BROADCAST@ + "+"@ + edit::CLIPS@ + "+"@ + edit::USER@ + "+"@ + edit::CHAT@ + "+"@
        + edit::WHISPERS@
}

/// Every scope the bot asks for.
pub open spec fn all_scopes() -> Seq<char> {
    analytics_scopes() + "+"@ + read_scopes() + "+"@ + write_scopes() + "+"@ + MODERATE@
}

pub fn get_all_scopes() -> (scopes: String)
    ensures
        scopes@ == all_scopes(),
{
    let mut scopes = get_all_analytics_scopes();
    scopes.append("+");
    scopes.append(get_all_read_scopes().as_str());
    scopes.append("+");
    scopes.append(get_all_write_scopes().as_str());
    scopes.append("+");
    scopes.append(MODERATE);
    scopes
}

pub fn get_all_analytics_scopes() -> (scopes: String)
    ensures
        scopes@ == analytics_scopes(),
{
    let mut scopes = String::from_str(read::analytics::EXTENSIONS);
    scopes.append("+");
    scopes.append(read::analytics::GAMES);
    scopes
}

pub fn get_all_read_scopes() -> (scopes: String)
    ensures
        scopes@ == read_scopes(),
{
    let mut scopes = String::from_str(read::BITS);
    scopes.append("+");
    scopes.append(read::BROADCAST);
    scopes.append("+");
    scopes.append(read::EMAIL_ADDRESS);
    scopes.append("+");
    scopes.append(read::SUBSCRIPTIONS);
    scopes.append("+");
    scopes.append(read::CHAT);
    scopes.append("+");
    scopes.append(read::WHISPERS);
    scopes
}

pub fn get_all_write_scopes() -> (scopes: String)
    ensures
        scopes@ == write_scopes(),
{
    let mut scopes = String::from_str(edit::BROADCAST);
    scopes.append("+");
    scopes.append(edit::CLIPS);
    scopes.append("+");
    scopes.append(edit::USER);
    scopes.append("+");
    scopes.append(edit::CHAT);
    scopes.append("+");
    scopes.append(edit::WHISPERS);
    scopes
}

} // verus!
