use crate::user::UserLogin;
use vstd::prelude::*;

verus! {

/// What a chat message is made of, as plain values.
pub struct UserMessageView {
    pub speaker: Seq<char>,
    pub text: Seq<char>,
    pub channel: Seq<char>,
}

/// A chat message: who spoke, what they said, and in which channel.
pub struct TwitchIrcUserMessage {
    speaker: UserLogin,
    text: String,
    channel: UserLogin,
}

impl View for TwitchIrcUserMessage {
    type V = UserMessageView;

    open spec fn view(&self) -> UserMessageView {
        UserMessageView {
            speaker: self.spec_speaker(),
            text: self.spec_text(),
            channel: self.spec_channel(),
        }
    }
}

impl TwitchIrcUserMessage {
    pub closed spec fn spec_speaker(&self) -> Seq<char> {
        self.speaker@
    }

    pub closed spec fn spec_text(&self) -> Seq<char> {
        self.text@
    }

    pub closed spec fn spec_channel(&self) -> Seq<char> {
        self.channel@
    }

    pub fn new(speaker: UserLogin, text: String, channel: UserLogin) -> (message:
        TwitchIrcUserMessage)
        ensures
            message@ == (UserMessageView { speaker: speaker@, text: text@, channel: channel@ }),
    {
        TwitchIrcUserMessage { speaker, text, channel }
    }

    pub fn get_message_body(&self) -> (text: String)
        ensures
            text@ == self@.text,
    {
        self.text.clone()
    }

    pub fn get_speaker(&self) -> (speaker: UserLogin)
        ensures
            speaker@ == self@.speaker,
    {
        self.speaker.clone()
    }

    pub fn get_target_channel(&self) -> (channel: UserLogin)
        ensures
            channel@ == self@.channel,
    {
        self.channel.clone()
    }
}

impl Clone for TwitchIrcUserMessage {
    fn clone(&self) -> (res: Self)
        ensures
            res@ == self@,
    {
        TwitchIrcUserMessage {
            speaker: self.speaker.clone(),
            text: self.text.clone(),
            channel: self.channel.clone(),
        }
    }
}

} // verus!
