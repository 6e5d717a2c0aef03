use crate::irc_chat::twitch_user_message::{TwitchIrcUserMessage, UserMessageView};
use crate::user::UserLogin;
use vstd::prelude::*;

verus! {

/// What a line from the IRC server is about, as plain values.
pub enum IrcMessageView {
    Client,
    Message(UserMessageView),
    JoiningChannel { joiner: Seq<char>, channel: Seq<char> },
    LeavingChannel { leaver: Seq<char>, channel: Seq<char> },
}

/// What a line from the IRC server is about.
pub enum TwitchIrcMessageType {
    /// A message addressed to the bot's own account.
    Client,
    /// A chat message.
    Message(TwitchIrcUserMessage),
    /// Someone joined a channel.
    JoiningChannel { joiner: UserLogin, channel: UserLogin },
    /// Someone left a channel.
    LeavingChannel { leaver: UserLogin, channel: UserLogin },
}

impl View for TwitchIrcMessageType {
    type V = IrcMessageView;

    open spec fn view(&self) -> IrcMessageView {
        match self {
            TwitchIrcMessageType::Client => IrcMessageView::Client,
            TwitchIrcMessageType::Message(m) => IrcMessageView::Message(m@),
            TwitchIrcMessageType::JoiningChannel { joiner, channel } => {
                IrcMessageView::JoiningChannel { joiner: joiner@, channel: channel@ }
            },
            TwitchIrcMessageType::LeavingChannel { leaver, channel } => {
                IrcMessageView::LeavingChannel { leaver: leaver@, channel: channel@ }
            },
        }
    }
}

} // verus!
