use crate::irc_chat::commands::command_key::{lowercase, to_lowercase, ChatCommandKey};
use crate::irc_chat::commands::commands_map::{
    get_user_commands_including_alternates, spec_alternate_commands, spec_primary_commands,
    NativeCommand, UserCommandsMap,
};
use crate::irc_chat::twitch_user_message::TwitchIrcUserMessage;
use crate::text::{decimal_chars, decimal_text, join_with, str_equal, string_of};
use crate::irc_chat::channel_chatter_data::{admin_or_mod, is_admin_or_mod, logins};
use crate::user::UserLogin;
use rand::Rng;
use vstd::prelude::*;

verus! {

/// The IRC line that says `message` in `channel`.
pub open spec fn chat_line(channel: Seq<char>, message: Seq<char>) -> Seq<char> {
    "PRIVMSG #"@ + channel + " :"@ + message
}

/// The IRC line that makes the bot say `message` in `channel`.
pub fn send_message_from_user_format(channel: &UserLogin, message: &str) -> (line: String)
    ensures
        line@ == chat_line(channel@, message@),
{
    let mut line = String::from_str("PRIVMSG #");
    line.append(channel.as_str());
    line.append(" :");
    line.append(message);
    line
}

/// The line that answers `message` with `text` in the channel it was said in.
pub fn reply_to(message: &TwitchIrcUserMessage, text: &str) -> (line: String)
    ensures
        line@ == chat_line(message@.channel, text@),
{
    let channel = message.get_target_channel();
    send_message_from_user_format(&channel, text)
}

// ---------------------------------------------------------------- !shoutout

/// What `!shoutout` answers to `speaker` when given `args`.
pub open spec fn shoutout_text(speaker: Seq<char>, args: Seq<Seq<char>>) -> Seq<char> {
    if args.len() == 0 || args[0].len() == 0 || args[0] == "@"@ {
        "A name to shoutout was not given!\nYou screwed up, "@ + speaker + "!"@
    } else {
        let name = if args[0][0] == '@' {
            args[0].drop_first()
        } else {
            args[0]
        };
        "Go check out "@ + name + "!\nhttps://twitch.tv/"@ + name
    }
}

/// `!shoutout`: points the chat to the channel named in the first argument
/// (with or without a leading `@`), where the speaker is the channel's owner
/// or one of its moderators `mods`; for anyone else it says nothing.
pub fn shoutout(message: &TwitchIrcUserMessage, args: &Vec<String>, mods: &Vec<UserLogin>) -> (line: Option<String>)
    ensures
        line is Some <==> admin_or_mod(message@.speaker, message@.channel, logins(mods@)),
        line matches Some(l) ==> l@ == chat_line(
            message@.channel,
            shoutout_text(message@.speaker, args.deep_view()),
        ),
{
    if !is_admin_or_mod(&message.get_speaker(), &message.get_target_channel(), mods) {
        return None;
    }
    Some(shoutout_line(message, args))
}

/// The line that points the chat to the channel named in the first argument
/// (with or without a leading `@`), or says that no name was given.
pub fn shoutout_line(message: &TwitchIrcUserMessage, args: &Vec<String>) -> (line: String)
    ensures
        line@ == chat_line(message@.channel, shoutout_text(message@.speaker, args.deep_view())),
{
    let speaker = message.get_speaker();
    let mut text = String::new();
    if args.len() == 0 || args[0].unicode_len() == 0 || str_equal(args[0].as_str(), "@") {
        text.append("A name to shoutout was not given!\nYou screwed up, ");
        text.append(speaker.as_str());
        text.append("!");
    } else {
        let dirty_name = args[0].as_str();
        let n = dirty_name.unicode_len();
        let name = if dirty_name.get_char(0) == '@' {
            dirty_name.substring_char(1, n)
        } else {
            dirty_name
        };
        assert(name@ == (if args.deep_view()[0][0] == '@' {
            args.deep_view()[0].drop_first()
        } else {
            args.deep_view()[0]
        }));
        text.append("Go check out ");
        text.append(name);
        text.append("!\nhttps://twitch.tv/");
        text.append(name);
    }
    reply_to(message, text.as_str())
}

// ------------------------------------------------------------------ !socials

/// What `!socials` answers.
pub open spec fn socials_text() -> Seq<char> {
    "Socials\nPatreon: https://patreon.com/KubesContent/\nTwitter: https://twitter.com/ContentKubes/\nDiscord: https://discord.gg/cB4Pyzk/\nInstagram: https://www.instagram.com/kubes_content/\nArtStation: https://www.artstation.com/kubes"@
}

/// `!socials`: lists the streamer's social links.
pub fn socials(message: &TwitchIrcUserMessage) -> (line: String)
    ensures
        line@ == chat_line(message@.channel, socials_text()),
{
    reply_to(
        message,
        "Socials\nPatreon: https://patreon.com/KubesContent/\nTwitter: https://twitter.com/ContentKubes/\nDiscord: https://discord.gg/cB4Pyzk/\nInstagram: https://www.instagram.com/kubes_content/\nArtStation: https://www.artstation.com/kubes",
    )
}

// --------------------------------------------------------------------- !lurk

/// What `!lurk` answers to `speaker`.
pub open spec fn lurk_text(speaker: Seq<char>) -> Seq<char> {
    speaker + " bursts into smoke and disperses into the darkness. They will be missed."@
}

/// `!lurk`: announces that the speaker is lurking.
pub fn enter_lurk(message: &TwitchIrcUserMessage) -> (line: String)
    ensures
        line@ == chat_line(message@.channel, lurk_text(message@.speaker)),
{
    let speaker = message.get_speaker();
    let mut text = speaker.get_value();
    text.append(" bursts into smoke and disperses into the darkness. They will be missed.");
    reply_to(message, text.as_str())
}

// ----------------------------------------------------------------- !flipcoin

/// What `!flipcoin` answers when the coin shows heads (`true`) or tails.
pub open spec fn flipcoin_text(heads: bool) -> Seq<char> {
    "A coin somersaults into the air!\nIt lands "@ + (if heads {
        "heads"@
    } else {
        "tails"@
    }) + "!"@
}

/// Calls `rand::Rng::gen` for a `bool` on the thread's generator: a fair
/// coin. Nothing is promised of the outcome.
#[verifier::external_body]
fn coin_toss() -> bool {
    rand::thread_rng().gen::<bool>()
}

/// The `!flipcoin` answer for a coin that shows `heads` (or tails).
pub fn flipcoin_with(message: &TwitchIrcUserMessage, heads: bool) -> (line: String)
    ensures
        line@ == chat_line(message@.channel, flipcoin_text(heads)),
{
    let mut text = String::from_str("A coin somersaults into the air!\nIt lands ");
    if heads {
        text.append("heads");
    } else {
        text.append("tails");
    }
    text.append("!");
    reply_to(message, text.as_str())
}

/// `!flipcoin`: tosses a coin and says how it landed.
pub fn flipcoin(message: &TwitchIrcUserMessage) -> (line: String)
    ensures
        line@ == chat_line(message@.channel, flipcoin_text(true)) || line@ == chat_line(
            message@.channel,
            flipcoin_text(false),
        ),
{
    let heads = coin_toss();
    flipcoin_with(message, heads)
}

// ------------------------------------------------------------------ !blame

/// What `!blame` answers when it picks `chatter`.
pub open spec fn blame_text(chatter: Seq<char>) -> Seq<char> {
    chatter + " is clearly the issue."@
}

/// Calls `rand::Rng::gen_range(0..n)` on the thread's generator. The
/// documentation promises a value in `0..n`; which one is left to chance.
/// `n` must not be zero (the call panics on an empty range).
#[verifier::external_body]
fn random_index(n: usize) -> (r: usize)
    requires
        n > 0,
    ensures
        r < n,
{
    rand::thread_rng().gen_range(0..n)
}

/// The `!blame` answer, said in the bot's own channel, that blames
/// `chatters[index]`.
pub fn blame_user_at(client_login: &UserLogin, chatters: &Vec<UserLogin>, index: usize) -> (line:
    String)
    requires
        index < chatters.len(),
    ensures
        line@ == chat_line(client_login@, blame_text(chatters[index as int]@)),
{
    let mut text = chatters[index].get_value();
    text.append(" is clearly the issue.");
    send_message_from_user_format(client_login, text.as_str())
}

/// The line that `!blame` sends to the server before its answer.
pub open spec fn blame_test_line() -> Seq<char> {
    "THIS IS A TEST MESSAGE"@
}

/// `!blame`: the lines it sends, in order: a test line, then the answer
/// that blames a chatter picked at random.
pub fn blame_random_user(client_login: &UserLogin, chatters: &Vec<UserLogin>) -> (lines: Vec<String>)
    requires
        chatters.len() > 0,
    ensures
        lines.len() == 2,
        lines[0]@ == blame_test_line(),
        exists|i: int|
            0 <= i < chatters.len() && lines[1]@ == chat_line(
                client_login@,
                blame_text(#[trigger] chatters[i]@),
            ),
{
    let mut lines: Vec<String> = Vec::new();
    lines.push(String::from_str("THIS IS A TEST MESSAGE"));
    let index = random_index(chatters.len());
    lines.push(blame_user_at(client_login, chatters, index));
    lines
}

// ----------------------------------------------------------------- !random

/// What `!random` does.
pub enum RandomSelectionOutcome {
    /// Say this text.
    Reply(String),
    /// The two choices were heads and tails: run `!flipcoin` instead.
    Flipcoin,
}

/// `!random`'s answer when there are too few choices.
pub open spec fn not_enough_choices_text() -> Seq<char> {
    "Not enough arguments given to '!random'."@
}

/// The two choices are "heads" and "tails" (in any order and case).
pub open spec fn is_heads_or_tails(args: Seq<Seq<char>>) -> bool {
    args.len() == 2 && (lowercase(args[0]) == "heads"@ || lowercase(args[1]) == "heads"@) && (
    lowercase(args[0]) == "tails"@ || lowercase(args[1]) == "tails"@)
}

/// What `!random` answers when `pick` is the drawn index.
pub open spec fn random_selection_result(args: Seq<Seq<char>>, pick: int) -> Option<Seq<char>> {
    if args.len() < 2 {
        Some(not_enough_choices_text())
    } else if is_heads_or_tails(args) {
        None
    } else {
        Some(args[pick])
    }
}

/// `!random` with the index that the draw gave.
pub fn random_selection_with(args: &Vec<String>, pick: usize) -> (r: RandomSelectionOutcome)
    requires
        args.len() >= 2 ==> pick < args.len(),
    ensures
        match r {
            RandomSelectionOutcome::Reply(text) => random_selection_result(
                args.deep_view(),
                pick as int,
            ) == Some(text@),
            RandomSelectionOutcome::Flipcoin => random_selection_result(
                args.deep_view(),
                pick as int,
            ) is None,
        },
{
    if args.len() < 2 {
        return RandomSelectionOutcome::Reply(String::from_str("Not enough arguments given to '!random'."));
    }
    if args.len() == 2 {
        let first = to_lowercase(args[0].as_str());
        let second = to_lowercase(args[1].as_str());
        let heads = str_equal(first.as_str(), "heads") || str_equal(second.as_str(), "heads");
        let tails = str_equal(first.as_str(), "tails") || str_equal(second.as_str(), "tails");
        if heads && tails {
            return RandomSelectionOutcome::Flipcoin;
        }
    }
    RandomSelectionOutcome::Reply(args[pick].clone())
}

/// `!random`: picks one of the arguments at random.
pub fn random_selection(args: &Vec<String>) -> (r: RandomSelectionOutcome)
    ensures
        exists|pick: int|
            (args.len() < 2 || 0 <= pick < args.len()) && match r {
                RandomSelectionOutcome::Reply(text) => random_selection_result(
                    args.deep_view(),
                    pick,
                ) == Some(text@),
                RandomSelectionOutcome::Flipcoin => random_selection_result(
                    args.deep_view(),
                    pick,
                ) is None,
            },
{
    let pick = if args.len() >= 2 {
        random_index(args.len())
    } else {
        0
    };
    random_selection_with(args, pick)
}

// --------------------------------------------------------------- !commands

/// The keys, each with a leading `!`.
pub open spec fn bang_keys(keys: Seq<Seq<char>>) -> Seq<Seq<char>> {
    keys.map_values(|k: Seq<char>| "!"@ + k)
}

/// What `!commands` answers for the main keys `keys`.
pub open spec fn all_commands_text(keys: Seq<Seq<char>>) -> Seq<char> {
    "Commands: "@ + join_with(bang_keys(keys), " "@)
}

/// `!commands`: lists the main key of every built-in command, each once,
/// in the order the keys were first added.
pub fn all_commands(message: &TwitchIrcUserMessage, commands: &UserCommandsMap) -> (line: String)
    ensures
        line@ == chat_line(message@.channel, all_commands_text(commands.spec_keys())),
        commands.spec_keys().no_duplicates(),
        commands.spec_keys().to_set() == commands@.dom(),
{
    let keys = commands.keys();
    let ghost ks = keys@.map_values(|k: ChatCommandKey| k@);
    let mut listed = String::new();
    let mut i: usize = 0;
    while i < keys.len()
        invariant
            i <= keys.len(),
            ks == keys@.map_values(|k: ChatCommandKey| k@),
            listed@ == join_with(bang_keys(ks.take(i as int)), " "@),
        decreases keys.len() - i,
    {
        proof {
            reveal_strlit(" ");
            reveal_strlit("!");
        }
        let ghost before = listed@;
        if i > 0 {
            listed.append(" ");
        }
        listed.append("!");
        listed.append(keys[i].as_str());
        assert(bang_keys(ks.take(i + 1)).drop_last() =~= bang_keys(ks.take(i as int)));
        assert(bang_keys(ks.take(i + 1)).last() == "!"@ + keys[i as int]@);
        if i == 0 {
            assert(bang_keys(ks.take(1)).len() == 1);
            assert(listed@ =~= "!"@ + keys[0]@);
        } else {
            assert(listed@ =~= before + " "@ + ("!"@ + keys[i as int]@));
        }
        i = i + 1;
    }
    assert(ks.take(i as int) =~= ks);
    let mut text = String::from_str("Commands: ");
    text.append(listed.as_str());
    reply_to(message, text.as_str())
}

// -------------------------------------------------------------- !addcommand

/// What `!addcommand` asks for.
pub enum AddCustomCommandDecision {
    /// The command was given outside the bot's own channel: nothing is done.
    NotClientChannel,
    /// Say this warning.
    Reply(String),
    /// Store a custom command that answers `text` under `key`.
    Store { key: ChatCommandKey, text: String },
}

/// The warning for too few arguments.
pub open spec fn missing_arguments_text() -> Seq<char> {
    "WARNING: Did not receive a command name and the text to display when that command is fired."@
}

/// The warning for a key that a built-in command already uses.
pub open spec fn built_in_key_text(key: Seq<char>) -> Seq<char> {
    "WARNING: Cannot create custom command. \"!"@ + key + "\" is already a built-in command."@
}

/// `!addcommand <key> <text...>` said in `message`, with `client` the bot's
/// own channel.
pub fn add_custom_text_command(
    message: &TwitchIrcUserMessage,
    args: &Vec<String>,
    client: &UserLogin,
) -> (r: AddCustomCommandDecision)
    ensures
        message@.channel != client@ ==> r is NotClientChannel,
        message@.channel == client@ ==> match r {
            AddCustomCommandDecision::NotClientChannel => false,
            AddCustomCommandDecision::Reply(text) => if args.len() < 2 {
                text@ == missing_arguments_text()
            } else {
                (spec_primary_commands().dom().contains(args[0]@)
                    || spec_alternate_commands().dom().contains(args[0]@)) && text@
                    == built_in_key_text(args[0]@)
            },
            AddCustomCommandDecision::Store { key, text } => args.len() >= 2 && !(
            spec_primary_commands().dom().contains(args[0]@)
                || spec_alternate_commands().dom().contains(args[0]@)) && key@ == args[0]@
                && text@ == join_with(args.deep_view().skip(1), " "@),
        },
{
    let (commands, alternate_commands) = get_user_commands_including_alternates();
    add_custom_text_command_with(message, args, client, &commands, &alternate_commands)
}

/// `!addcommand <key> <text...>` said in `message`, with `client` the bot's
/// own channel and `commands` and `alternate_commands` the built-in
/// commands by their main and their other keys.
pub fn add_custom_text_command_with(
    message: &TwitchIrcUserMessage,
    args: &Vec<String>,
    client: &UserLogin,
    commands: &UserCommandsMap,
    alternate_commands: &UserCommandsMap,
) -> (r: AddCustomCommandDecision)
    ensures
        message@.channel != client@ ==> r is NotClientChannel,
        message@.channel == client@ ==> match r {
            AddCustomCommandDecision::NotClientChannel => false,
            AddCustomCommandDecision::Reply(text) => if args.len() < 2 {
                text@ == missing_arguments_text()
            } else {
                (commands@.dom().contains(args[0]@)
                    || alternate_commands@.dom().contains(args[0]@)) && text@
                    == built_in_key_text(args[0]@)
            },
            AddCustomCommandDecision::Store { key, text } => args.len() >= 2 && !(
            commands@.dom().contains(args[0]@)
                || alternate_commands@.dom().contains(args[0]@)) && key@ == args[0]@
                && text@ == join_with(args.deep_view().skip(1), " "@),
        },
{
    if !(message.get_target_channel() == *client) {
        return AddCustomCommandDecision::NotClientChannel;
    }
    if args.len() < 2 {
        return AddCustomCommandDecision::Reply(
            String::from_str(
                "WARNING: Did not receive a command name and the text to display when that command is fired.",
            ),
        );
    }
    let key = ChatCommandKey::from(args[0].clone());
    if commands.contains_key(&key) || alternate_commands.contains_key(&key) {
        let mut text = String::from_str("WARNING: Cannot create custom command. \"!");
        text.append(args[0].as_str());
        text.append("\" is already a built-in command.");
        return AddCustomCommandDecision::Reply(text);
    }
    let ghost rest = args.deep_view().skip(1);
    let mut text = String::new();
    let mut i: usize = 1;
    while i < args.len()
        invariant
            1 <= i <= args.len(),
            rest == args.deep_view().skip(1),
            text@ == join_with(rest.take(i - 1), " "@),
        decreases args.len() - i,
    {
        proof {
            reveal_strlit(" ");
        }
        let ghost before = text@;
        if i > 1 {
            text.append(" ");
        }
        text.append(args[i].as_str());
        assert(rest.take(i as int).drop_last() =~= rest.take(i - 1));
        assert(rest.take(i as int).last() == args[i as int]@);
        if i == 1 {
            assert(text@ =~= args[1]@);
        } else {
            assert(text@ =~= before + " "@ + args[i as int]@);
        }
        i = i + 1;
    }
    assert(rest.take(i - 1) =~= rest);
    AddCustomCommandDecision::Store { key, text }
}

} // verus!

verus! {

/// A name to shout out reads the same with or without a leading `@`, and
/// only the first argument counts.
pub proof fn lemma_shoutout_at_sign(speaker: Seq<char>, name: Seq<char>, rest: Seq<Seq<char>>)
    requires
        name.len() > 0,
        name[0] != '@',
    ensures
        shoutout_text(speaker, seq![seq!['@'] + name] + rest) == shoutout_text(speaker, seq![name]),
{
    reveal_strlit("@");
    let args = seq![seq!['@'] + name] + rest;
    assert(args[0] == seq!['@'] + name);
    assert(args[0] != "@"@) by {
        assert(args[0].len() != "@"@.len());
    }
    assert(seq![name][0] != "@"@) by {
        assert(name[0] != "@"@[0]);
    }
    assert(args[0].drop_first() =~= name);
}

} // verus!

verus! {

/// What `!level` answers to `speaker`, whose level is `level`.
pub open spec fn level_text(speaker: Seq<char>, level: u32) -> Seq<char> {
    speaker + "'s current level is "@ + decimal_text(level as nat) + "."@
}

/// `!level`: the answer that tells the speaker their level, `level`.
pub fn level_reply(message: &TwitchIrcUserMessage, level: u32) -> (line: String)
    ensures
        line@ == chat_line(message@.channel, level_text(message@.speaker, level)),
{
    let mut text = message.get_speaker().get_value();
    text.append("'s current level is ");
    text.append(string_of(&decimal_chars(level)).as_str());
    text.append(".");
    reply_to(message, text.as_str())
}

} // verus!

verus! {

/// The warning that a command which takes no arguments writes when it is
/// given some; `name` is the command as the warning names it.
pub open spec fn arguments_warning_text(name: Seq<char>) -> Seq<char> {
    "Arguments were given to '!"@ + name + "', should we not trigger '!"@ + name + "'? "@
}

/// The warning that a command named `name` writes when it is given the
/// arguments `args`: some exactly when there are arguments.
pub fn unexpected_arguments_warning(name: &str, args: &Vec<String>) -> (warning: Option<String>)
    ensures
        warning is Some <==> args.len() > 0,
        warning matches Some(t) ==> t@ == arguments_warning_text(name@),
{
    if args.len() == 0 {
        return None;
    }
    let mut text = String::from_str("Arguments were given to '!");
    text.append(name);
    text.append("', should we not trigger '!");
    text.append(name);
    text.append("'? ");
    Some(text)
}

/// How a built-in command names itself in its warning about arguments, for
/// the commands that warn (`!socials` names itself `!flipcoin`).
pub open spec fn warning_name(command: NativeCommand) -> Option<Seq<char>> {
    match command {
        NativeCommand::Socials => Some("flipcoin"@),
        NativeCommand::Flipcoin => Some("flipcoin"@),
        NativeCommand::EnterLurk => Some("lurk"@),
        NativeCommand::BlameRandomUser => Some("blame"@),
        _ => None,
    }
}

/// The warning that the built-in `command` writes when it is given the
/// arguments `args`: some exactly when it is one of the commands that take
/// no arguments (`!socials`, `!flipcoin`, `!lurk`, `!blame`) and there are
/// arguments.
pub fn command_arguments_warning(command: NativeCommand, args: &Vec<String>) -> (warning: Option<String>)
    ensures
        warning is Some <==> (warning_name(command) is Some && args.len() > 0),
        warning matches Some(t) ==> t@ == arguments_warning_text(warning_name(command).unwrap()),
{
    match command {
        NativeCommand::Socials => unexpected_arguments_warning("flipcoin", args),
        NativeCommand::Flipcoin => unexpected_arguments_warning("flipcoin", args),
        NativeCommand::EnterLurk => unexpected_arguments_warning("lurk", args),
        NativeCommand::BlameRandomUser => unexpected_arguments_warning("blame", args),
        _ => None,
    }
}

} // verus!

verus! {

/// Whether `!random` turns into `!flipcoin` does not depend on the order of
/// its two arguments, and it does so whenever one is "heads" and the other
/// "tails" (in any case); then no argument is picked, whatever the draw.
pub proof fn lemma_heads_or_tails_symmetric(a: Seq<char>, b: Seq<char>, pick: int)
    ensures
        is_heads_or_tails(seq![a, b]) == is_heads_or_tails(seq![b, a]),
        (lowercase(a) == "heads"@ && lowercase(b) == "tails"@) ==> is_heads_or_tails(seq![a, b])
            && random_selection_result(seq![a, b], pick) is None && random_selection_result(
            seq![b, a],
            pick,
        ) is None,
{
    assert(seq![a, b][0] == a && seq![a, b][1] == b);
    assert(seq![b, a][0] == b && seq![b, a][1] == a);
}

} // verus!
