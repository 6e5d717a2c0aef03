use crate::irc::response_context::ResponseContext;
use crate::irc_chat::commands::replies::{
    arguments_warning_text, chat_line, reply_to, unexpected_arguments_warning,
};
use crate::irc_chat::twitch_user_message::TwitchIrcUserMessage;
use vstd::prelude::*;

verus! {

/// What this `!socials` answers: the links, one after the other on a single
/// line.
pub open spec fn socials_line_text() -> Seq<char> {
    "Patreon: https://patreon.com/KubesContent/Twitter: https://twitter.com/ContentKubes/Discord: https://discord.gg/cB4Pyzk/Instagram: https://www.instagram.com/kubes_content/ArtStation: https://www.artstation.com/kubes"@
}

/// `!socials`: queues the line that lists the streamer's social links,
/// whatever the arguments, and gives the warning to write where arguments
/// were given (it names the command `!flipcoin`).
pub fn socials(message: &TwitchIrcUserMessage, args: &Vec<String>, context: &mut ResponseContext) -> (warning: Option<String>)
    ensures
        final(context).spec_replies() == old(context).spec_replies().push(
            chat_line(message@.channel, socials_line_text()),
        ),
        final(context).spec_received() == old(context).spec_received(),
        final(context).spec_client_login() == old(context).spec_client_login(),
        final(context).spec_client_id() == old(context).spec_client_id(),
        warning is Some <==> args.len() > 0,
        warning matches Some(t) ==> t@ == arguments_warning_text("flipcoin"@),
{
    let warning = unexpected_arguments_warning("flipcoin", args);
    let line = reply_to(
        message,
        "Patreon: https://patreon.com/KubesContent/Twitter: https://twitter.com/ContentKubes/Discord: https://discord.gg/cB4Pyzk/Instagram: https://www.instagram.com/kubes_content/ArtStation: https://www.artstation.com/kubes",
    );
    context.add_response_to_reply_with(line);
    warning
}

} // verus!
