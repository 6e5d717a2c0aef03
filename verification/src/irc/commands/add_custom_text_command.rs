use crate::irc::response_context::ResponseContext;
use crate::irc_chat::commands::replies::{
    add_custom_text_command_with, built_in_key_text, missing_arguments_text,
    AddCustomCommandDecision,
};
use crate::irc_chat::parsers::default_irc_message_parser::DefaultMessageParser;
use crate::irc_chat::twitch_user_message::TwitchIrcUserMessage;
use crate::text::join_with;
use vstd::prelude::*;

verus! {

/// `!addcommand <key> <text...>` said in `message`, where `context` knows
/// the bot's own channel and `parser` holds the built-in commands: what to
/// do about it.
pub fn add_custom_text_command(
    parser: &DefaultMessageParser,
    message: &TwitchIrcUserMessage,
    args: &Vec<String>,
    context: &ResponseContext,
) -> (r: AddCustomCommandDecision)
    ensures
        message@.channel != context.spec_client_login() ==> r is NotClientChannel,
        message@.channel == context.spec_client_login() ==> match r {
            AddCustomCommandDecision::NotClientChannel => false,
            AddCustomCommandDecision::Reply(text) => if args.len() < 2 {
                text@ == missing_arguments_text()
            } else {
                (parser.user_commands@.dom().contains(args[0]@)
                    || parser.user_commands_alternate_keywords@.dom().contains(args[0]@)) && text@
                    == built_in_key_text(args[0]@)
            },
            AddCustomCommandDecision::Store { key, text } => args.len() >= 2 && !(
            parser.user_commands@.dom().contains(args[0]@)
                || parser.user_commands_alternate_keywords@.dom().contains(args[0]@)) && key@
                == args[0]@ && text@ == join_with(args.deep_view().skip(1), " "@),
        },
{
    let client = context.get_client_user().get_login();
    let (commands, alternate_commands) = parser.get_user_commands_including_alternates();
    add_custom_text_command_with(message, args, &client, commands, alternate_commands)
}

} // verus!
