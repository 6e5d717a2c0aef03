use crate::irc::response_context::ResponseContext;
use crate::irc_chat::commands::replies::{chat_line, shoutout_text};
use crate::irc_chat::twitch_user_message::TwitchIrcUserMessage;
use vstd::prelude::*;

verus! {

/// `!shoutout`: queues the line that points the chat to the channel named in
/// the first argument (with or without a leading `@`).
pub fn shoutout(message: &TwitchIrcUserMessage, args: &Vec<String>, context: &mut ResponseContext)
    ensures
        final(context).spec_replies() == old(context).spec_replies().push(
            chat_line(message@.channel, shoutout_text(message@.speaker, args.deep_view())),
        ),
        final(context).spec_received() == old(context).spec_received(),
        final(context).spec_client_login() == old(context).spec_client_login(),
        final(context).spec_client_id() == old(context).spec_client_id(),
{
    let line = crate::irc_chat::commands::replies::shoutout_line(message, args);
    context.add_response_to_reply_with(line);
}

} // verus!
