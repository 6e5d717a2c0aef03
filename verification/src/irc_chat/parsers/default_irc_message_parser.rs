use crate::irc_chat::commands::command_key::{lowercase, to_lowercase, ChatCommandKey};
use crate::irc_chat::commands::commands_map::{
    add_default_command, insert_all, spec_alternate_commands, spec_primary_commands,
    NativeCommand, UserCommandsMap,
};
use crate::irc_chat::response_context::ResponseContext;
use crate::oauth::OauthToken;
use crate::irc_chat::twitch_message_type::{IrcMessageView, TwitchIrcMessageType};
use crate::irc_chat::twitch_user_message::{TwitchIrcUserMessage, UserMessageView};
use crate::text::{
    begins_with, char_is_ascii, chars_equal, chars_from, chars_of, strings_from, collapse_spaces, collapse_spaces_from, is_ascii_char,
    is_char_boundary_at, join_chars, join_with, lacks, lemma_collapse_single_spaced,
    lemma_join_single_spaced, lemma_join_split, lemma_lacks_concat, lemma_split_join, lemma_single_spaced_cons, lemma_single_spaced_join,
    lemma_single_spaced_lacks, lemma_split_at, lemma_split_first_non_empty, lemma_split_on_len,
    lemma_split_prefix, lemma_split_without, pieces_from, single_spaced,
    lemma_boundary_after_three_ascii, lemma_collapse_concat, lemma_collapse_grows, lemma_utf8_len_at_least,
    prefix_within_bytes, split_chars, split_on, string_of, string_of_range, utf8_len,
    utf8_len_below,
};
use crate::user::{UserData, UserLogin};
use vstd::prelude::*;

verus! {

/// What reading a line gives: a message, a refusal, or a panic, where
/// reading it means cutting its text at a byte that is not a character
/// boundary.
pub enum DecipherOutcome {
    Parsed(IrcMessageView),
    Rejected,
    Panics,
}

/// A line without `!` in its first word: a message to the bot's own account
/// `client`, such as `:client.tmi.twitch.tv 353 ...`.
pub open spec fn client_line_outcome(d: Seq<char>, client: Seq<char>) -> DecipherOutcome {
    let dots = split_on(d, '.');
    if dots[0] != client {
        DecipherOutcome::Rejected
    } else if dots.len() < 4 {
        DecipherOutcome::Rejected
    } else if utf8_len(dots[3]) < 4 {
        DecipherOutcome::Rejected
    } else if !is_char_boundary_at(dots[3], 3) {
        DecipherOutcome::Panics
    } else {
        DecipherOutcome::Parsed(IrcMessageView::Client)
    }
}

/// A line that starts `user!user@...`: a chat message or a JOIN.
pub open spec fn user_line_outcome(d: Seq<char>) -> DecipherOutcome {
    let bang = split_on(d, '!');
    let user = bang[0];
    let words = split_on(d, ' ');
    if split_on(bang[1], '@')[0] != user {
        DecipherOutcome::Rejected
    } else if words.len() < 3 {
        DecipherOutcome::Rejected
    } else if words[2].len() == 0 {
        DecipherOutcome::Rejected
    } else if !is_ascii_char(words[2][0]) {
        DecipherOutcome::Panics
    } else if words[2].len() < 2 {
        DecipherOutcome::Rejected
    } else {
        let channel = words[2].drop_first();
        if words[1] == "PRIVMSG"@ {
            if words.len() < 4 {
                DecipherOutcome::Rejected
            } else if words[3].len() == 0 {
                DecipherOutcome::Rejected
            } else if !is_ascii_char(words[3][0]) {
                DecipherOutcome::Panics
            } else if words[3].len() < 2 {
                DecipherOutcome::Rejected
            } else {
                DecipherOutcome::Parsed(
                    IrcMessageView::Message(
                        UserMessageView {
                            speaker: user,
                            text: join_with(words.skip(3), " "@).drop_first(),
                            channel: channel,
                        },
                    ),
                )
            }
        } else if words[1] == "JOIN"@ {
            DecipherOutcome::Parsed(IrcMessageView::JoiningChannel { joiner: user, channel: channel })
        } else {
            DecipherOutcome::Rejected
        }
    }
}

/// What a line from the IRC server says, for the bot whose account is
/// `client`. The line must start with `:`; runs of spaces count as one.
pub open spec fn decipher_line(line: Seq<char>, client: Seq<char>) -> DecipherOutcome {
    if line.len() == 0 || line[0] != ':' {
        DecipherOutcome::Rejected
    } else {
        let d = collapse_spaces(line.drop_first());
        if split_on(d, '!').len() < 2 {
            client_line_outcome(d, client)
        } else {
            user_line_outcome(d)
        }
    }
}

/// A string made of the given characters.
fn login_of(v: &Vec<char>) -> (login: UserLogin)
    ensures
        login@ == v@,
{
    UserLogin::new(string_of(v))
}

/// Reads a line from the IRC server for the bot whose account is `client`:
/// the message, `Err` for a line it does not read, or `None` where reading
/// it means cutting its text inside a character.
pub fn decipher_line_chars(line: &Vec<char>, client: &Vec<char>) -> (r: Option<Result<TwitchIrcMessageType, ()>>)
    ensures
        match r {
            Some(Ok(m)) => decipher_line(line@, client@) == DecipherOutcome::Parsed(m@),
            Some(Err(_)) => decipher_line(line@, client@) is Rejected,
            None => decipher_line(line@, client@) is Panics,
        },
{
    if line.len() == 0 || line[0] != ':' {
        return Some(Err(()));
    }
    let d = collapse_spaces_from(line, 1);
    assert(line@.skip(1) =~= line@.drop_first());
    let bang = split_chars(&d, '!');
    proof {
        lemma_split_on_len(d@, '!');
        lemma_split_on_len(d@, '.');
        lemma_split_on_len(d@, ' ');
    }
    if bang.len() < 2 {
        let dots = split_chars(&d, '.');
        assert(dots[0]@ == split_on(d@, '.')[0]);
        if !chars_equal(&dots[0], client) {
            return Some(Err(()));
        }
        if dots.len() < 4 {
            return Some(Err(()));
        }
        assert(dots[3]@ == split_on(d@, '.')[3]);
        if utf8_len_below(&dots[3], 4) {
            return Some(Err(()));
        }
        let (_count, bytes) = prefix_within_bytes(&dots[3], 3);
        if bytes != 3 {
            return None;
        }
        return Some(Ok(TwitchIrcMessageType::Client));
    }
    assert(bang[0]@ == split_on(d@, '!')[0]);
    assert(bang[1]@ == split_on(d@, '!')[1]);
    let at_split = split_chars(&bang[1], '@');
    proof {
        lemma_split_on_len(bang[1]@, '@');
    }
    assert(at_split[0]@ == split_on(bang[1]@, '@')[0]);
    if !chars_equal(&at_split[0], &bang[0]) {
        return Some(Err(()));
    }
    let user = login_of(&bang[0]);
    let words = split_chars(&d, ' ');
    if words.len() < 3 {
        return Some(Err(()));
    }
    let dirty_channel = &words[2];
    assert(dirty_channel@ == split_on(d@, ' ')[2]);
    if dirty_channel.len() == 0 {
        return Some(Err(()));
    }
    if !char_is_ascii(dirty_channel[0]) {
        return None;
    }
    if dirty_channel.len() < 2 {
        return Some(Err(()));
    }
    let channel = UserLogin::new(string_of_range(dirty_channel, 1, dirty_channel.len()));
    assert(dirty_channel@.subrange(1, dirty_channel@.len() as int) =~= dirty_channel@.drop_first());
    assert(words[1]@ == split_on(d@, ' ')[1]);
    if chars_equal(&words[1], &chars_of("PRIVMSG")) {
        if words.len() < 4 {
            return Some(Err(()));
        }
        assert(words[3]@ == split_on(d@, ' ')[3]);
        if words[3].len() == 0 {
            return Some(Err(()));
        }
        if !char_is_ascii(words[3][0]) {
            return None;
        }
        if words[3].len() < 2 {
            return Some(Err(()));
        }
        let rest = pieces_from(&words, 3);
        let joined = join_chars(&rest, ' ');
        proof {
            reveal_strlit(" ");
            assert(" "@ =~= seq![' ']);
            lemma_join_first(rest.deep_view(), seq![' ']);
        }
        let text = string_of_range(&joined, 1, joined.len());
        assert(joined@.subrange(1, joined@.len() as int) =~= joined@.drop_first());
        let message = TwitchIrcUserMessage::new(user, text, channel);
        Some(Ok(TwitchIrcMessageType::Message(message)))
    } else if chars_equal(&words[1], &chars_of("JOIN")) {
        Some(Ok(TwitchIrcMessageType::JoiningChannel { joiner: user, channel }))
    } else {
        Some(Err(()))
    }
}

/// A joined list starts with its first piece.
proof fn lemma_join_first(pieces: Seq<Seq<char>>, sep: Seq<char>)
    requires
        pieces.len() >= 1,
    ensures
        join_with(pieces, sep).len() >= pieces[0].len(),
        forall|i: int| 0 <= i < pieces[0].len() ==> join_with(pieces, sep)[i] == pieces[0][i],
    decreases pieces.len(),
{
    if pieces.len() > 1 {
        lemma_join_first(pieces.drop_last(), sep);
    }
}

} // verus!

verus! {

/// The codes of the server's numbered replies that the parser knows.
pub open spec fn is_known_twitch_irc_code(code: Seq<char>) -> bool {
    code == "001"@ || code == "002"@ || code == "003"@ || code == "004"@ || code == "372"@ || code
        == "375"@ || code == "376"@ || code == "421"@
}

/// Whether the parser knows the server's numbered reply `code`.
pub fn process_twitch_irc_code(code: &str) -> (known: bool)
    ensures
        known == is_known_twitch_irc_code(code@),
{
    let known = crate::text::str_equal(code, "001") || crate::text::str_equal(code, "002")
        || crate::text::str_equal(code, "003") || crate::text::str_equal(code, "004")
        || crate::text::str_equal(code, "372") || crate::text::str_equal(code, "375")
        || crate::text::str_equal(code, "376") || crate::text::str_equal(code, "421");
    known
}

/// Why a chat command was not run.
#[derive(Clone, Copy, PartialEq, Eq, Structural, Debug)]
pub enum CommandError {
    /// The command was said outside the bot's own channel.
    NotClientChannel,
    /// The message is a lone `!`.
    InvalidMessage,
}

/// A chat command that a chat message asks for.
pub struct CommandRequest {
    pub message: TwitchIrcUserMessage,
    /// The word after `!`, in lower case.
    pub command: ChatCommandKey,
    /// The words after the command.
    pub args: Vec<String>,
    /// The built-in command stored under the key, if any.
    pub native: Option<NativeCommand>,
}

/// A command request, as plain values.
pub struct CommandRequestView {
    pub message: UserMessageView,
    pub command: Seq<char>,
    pub args: Seq<Seq<char>>,
    pub native: Option<NativeCommand>,
}

impl View for CommandRequest {
    type V = CommandRequestView;

    open spec fn view(&self) -> CommandRequestView {
        CommandRequestView {
            message: self.message@,
            command: self.command@,
            args: self.args.deep_view(),
            native: self.native,
        }
    }
}

/// What a line from the server asks of the bot.
pub enum ResponseEvent {
    /// A numbered reply of the server (`:tmi.twitch.tv <code> ...`).
    TwitchCode { code: String, known: bool },
    /// A PING: the PONG answer has been queued.
    Ping,
    /// A line the parser does not read.
    Unrecognized,
    /// A message to the bot's own account.
    Client,
    /// A chat message that is not a command.
    Chat(TwitchIrcUserMessage),
    /// A chat message that asks for a command.
    Command(CommandRequest),
    /// Someone joined a channel.
    Joined { joiner: UserLogin, channel: UserLogin },
    /// Someone left a channel.
    Left { leaver: UserLogin, channel: UserLogin },
}

/// What a line asks of the bot, as plain values.
pub enum ResponseEventView {
    TwitchCode { code: Seq<char>, known: bool },
    Ping,
    Unrecognized,
    Client,
    Chat(UserMessageView),
    Command(CommandRequestView),
    Joined { joiner: Seq<char>, channel: Seq<char> },
    Left { leaver: Seq<char>, channel: Seq<char> },
}

impl View for ResponseEvent {
    type V = ResponseEventView;

    open spec fn view(&self) -> ResponseEventView {
        match self {
            ResponseEvent::TwitchCode { code, known } => ResponseEventView::TwitchCode {
                code: code@,
                known: *known,
            },
            ResponseEvent::Ping => ResponseEventView::Ping,
            ResponseEvent::Unrecognized => ResponseEventView::Unrecognized,
            ResponseEvent::Client => ResponseEventView::Client,
            ResponseEvent::Chat(m) => ResponseEventView::Chat(m@),
            ResponseEvent::Command(c) => ResponseEventView::Command(c@),
            ResponseEvent::Joined { joiner, channel } => ResponseEventView::Joined {
                joiner: joiner@,
                channel: channel@,
            },
            ResponseEvent::Left { leaver, channel } => ResponseEventView::Left {
                leaver: leaver@,
                channel: channel@,
            },
        }
    }
}

/// What processing a line gives.
pub enum ProcessOutcome {
    Event(ResponseEventView),
    Failed(CommandError),
    Panics,
}

/// The prefix of the server's numbered replies.
pub open spec fn tmi_prefix() -> Seq<char> {
    ":tmi.twitch.tv "@
}

/// The PONG line that answers a PING.
pub open spec fn pong_line() -> Seq<char> {
    "PONG :tmi.twitch.tv"@
}

/// The command that a chat message `m` (whose text starts with `!`) asks
/// for, for the bot whose account is `client` and whose commands are
/// `primary` (main keys) and `alternate` (other keys).
pub open spec fn command_outcome(
    m: UserMessageView,
    client: Seq<char>,
    primary: Map<Seq<char>, NativeCommand>,
    alternate: Map<Seq<char>, NativeCommand>,
) -> ProcessOutcome {
    if m.channel != client {
        ProcessOutcome::Failed(CommandError::NotClientChannel)
    } else if m.text.len() == 1 {
        ProcessOutcome::Failed(CommandError::InvalidMessage)
    } else {
        let words = split_on(m.text.drop_first(), ' ');
        let key = lowercase(words[0]);
        let native = if primary.dom().contains(key) {
            Some(primary[key])
        } else if alternate.dom().contains(key) {
            Some(alternate[key])
        } else {
            None
        };
        ProcessOutcome::Event(
            ResponseEventView::Command(
                CommandRequestView { message: m, command: key, args: words.skip(1), native: native },
            ),
        )
    }
}

/// What the line `line` asks of the bot whose account is `client` and whose
/// commands are `primary` (main keys) and `alternate` (other keys).
pub open spec fn process_line(
    line: Seq<char>,
    client: Seq<char>,
    primary: Map<Seq<char>, NativeCommand>,
    alternate: Map<Seq<char>, NativeCommand>,
) -> ProcessOutcome {
    if crate::text::starts_with(line, tmi_prefix()) {
        let rest = line.skip(tmi_prefix().len() as int);
        if !is_char_boundary_at(rest, 3) {
            ProcessOutcome::Panics
        } else {
            let code = crate::text::byte_prefix(rest, 3);
            ProcessOutcome::Event(
                ResponseEventView::TwitchCode { code: code, known: is_known_twitch_irc_code(code) },
            )
        }
    } else if crate::text::starts_with(line, "PING "@) {
        ProcessOutcome::Event(ResponseEventView::Ping)
    } else {
        match decipher_line(line, client) {
            DecipherOutcome::Panics => ProcessOutcome::Panics,
            DecipherOutcome::Rejected => ProcessOutcome::Event(ResponseEventView::Unrecognized),
            DecipherOutcome::Parsed(IrcMessageView::Client) => ProcessOutcome::Event(
                ResponseEventView::Client,
            ),
            DecipherOutcome::Parsed(IrcMessageView::Message(m)) => {
                if crate::text::starts_with(m.text, "!"@) {
                    command_outcome(m, client, primary, alternate)
                } else {
                    ProcessOutcome::Event(ResponseEventView::Chat(m))
                }
            },
            DecipherOutcome::Parsed(IrcMessageView::JoiningChannel { joiner, channel }) => {
                ProcessOutcome::Event(ResponseEventView::Joined { joiner, channel })
            },
            DecipherOutcome::Parsed(IrcMessageView::LeavingChannel { leaver, channel }) => {
                ProcessOutcome::Event(ResponseEventView::Left { leaver, channel })
            },
        }
    }
}

} // verus!

verus! {

/// Reads the lines of Twitch's IRC server for one bot account.
pub struct DefaultMessageParser {
    /// The bot's own account.
    pub channel: UserData,
    /// The bot's OAuth token.
    pub auth: OauthToken,
    /// The built-in commands, by their main key.
    pub user_commands: UserCommandsMap,
    /// The built-in commands, by their other keys.
    pub user_commands_alternate_keywords: UserCommandsMap,
}

/// `m` with the main keys of the built-in commands added.
pub open spec fn with_default_commands(m: Map<Seq<char>, NativeCommand>) -> Map<Seq<char>, NativeCommand> {
    m.insert("addcommand"@, NativeCommand::AddCustomTextCommand)
        .insert("commands"@, NativeCommand::AllCommands)
        .insert("blame"@, NativeCommand::BlameRandomUser)
        .insert("flipcoin"@, NativeCommand::Flipcoin)
        .insert("lurk"@, NativeCommand::EnterLurk)
        .insert("random"@, NativeCommand::RandomSelection)
        .insert("shoutout"@, NativeCommand::Shoutout)
        .insert("socials"@, NativeCommand::Socials)
}

/// `m` with the other keys of the built-in commands added.
pub open spec fn with_default_alternates(m: Map<Seq<char>, NativeCommand>) -> Map<Seq<char>, NativeCommand> {
    m.insert("newcommand"@, NativeCommand::AddCustomTextCommand)
        .insert("allcommands"@, NativeCommand::AllCommands)
        .insert("scapegoat"@, NativeCommand::BlameRandomUser)
        .insert("5050"@, NativeCommand::Flipcoin)
        .insert("50-50"@, NativeCommand::Flipcoin)
        .insert("afk"@, NativeCommand::EnterLurk)
        .insert("busy"@, NativeCommand::EnterLurk)
        .insert("select"@, NativeCommand::RandomSelection)
        .insert("shout"@, NativeCommand::Shoutout)
        .insert("so"@, NativeCommand::Shoutout)
        .insert("social"@, NativeCommand::Socials)
}

impl DefaultMessageParser {
    /// A parser for the account `channel`, with the built-in commands.
    pub fn new(channel: UserData, token: OauthToken) -> (parser: DefaultMessageParser)
        ensures
            parser.channel.spec_login() == channel.spec_login(),
            parser.channel.spec_user_id() == channel.spec_user_id(),
            parser.auth.spec_signature() == token.spec_signature(),
            parser.user_commands@ == spec_primary_commands(),
            parser.user_commands_alternate_keywords@ == spec_alternate_commands(),
    {
        let mut parser = DefaultMessageParser {
            channel,
            auth: token,
            user_commands: UserCommandsMap::new(),
            user_commands_alternate_keywords: UserCommandsMap::new(),
        };
        parser.init_default_commands();
        assert(parser.user_commands@ =~= spec_primary_commands());
        assert(parser.user_commands_alternate_keywords@ =~= spec_alternate_commands());
        parser
    }

    /// Adds the built-in commands.
    pub fn init_default_commands(&mut self)
        ensures
            final(self).channel.spec_login() == old(self).channel.spec_login(),
            final(self).channel.spec_user_id() == old(self).channel.spec_user_id(),
            final(self).auth.spec_signature() == old(self).auth.spec_signature(),
            final(self).user_commands@ == with_default_commands(old(self).user_commands@),
            final(self).user_commands_alternate_keywords@ == with_default_alternates(
                old(self).user_commands_alternate_keywords@,
            ),
    {
        self.add_command("addcommand", vec!["newcommand"], NativeCommand::AddCustomTextCommand);
        self.add_command("commands", vec!["allcommands"], NativeCommand::AllCommands);
        self.add_command("blame", vec!["scapegoat"], NativeCommand::BlameRandomUser);
        self.add_command("flipcoin", vec!["5050", "50-50"], NativeCommand::Flipcoin);
        self.add_command("lurk", vec!["afk", "busy"], NativeCommand::EnterLurk);
        self.add_command("random", vec!["select"], NativeCommand::RandomSelection);
        self.add_command("shoutout", vec!["shout", "so"], NativeCommand::Shoutout);
        self.add_command("socials", vec!["social"], NativeCommand::Socials);
        proof {
            reveal_with_fuel(insert_all, 3);
        }
    }

    /// Stores `command` under its main key and its other keys.
    pub fn add_command(&mut self, primary_key: &str, alternate_keys: Vec<&str>, command: NativeCommand)
        ensures
            final(self).channel.spec_login() == old(self).channel.spec_login(),
            final(self).channel.spec_user_id() == old(self).channel.spec_user_id(),
            final(self).auth.spec_signature() == old(self).auth.spec_signature(),
            final(self).user_commands@ == old(self).user_commands@.insert(primary_key@, command),
            final(self).user_commands_alternate_keywords@ == insert_all(
                old(self).user_commands_alternate_keywords@,
                alternate_keys@.map_values(|k: &str| k@),
                command,
            ),
    {
        add_default_command(
            &mut self.user_commands,
            &mut self.user_commands_alternate_keywords,
            primary_key,
            alternate_keys,
            command,
        );
    }

    /// The built-in command stored under its main key `key`.
    pub fn get_user_command(&self, key: &ChatCommandKey) -> (r: Option<NativeCommand>)
        ensures
            r == (if self.user_commands@.dom().contains(key@) {
                Some(self.user_commands@[key@])
            } else {
                None
            }),
    {
        self.user_commands.get(key)
    }

    /// Whether `message` is a command: a `!` followed by something.
    pub fn verify_message(&self, message: &TwitchIrcUserMessage) -> (r: Result<(), CommandError>)
        ensures
            r is Ok <==> (message@.text.len() > 1 && message@.text[0] == '!'),
            r matches Err(e) ==> e == CommandError::InvalidMessage,
    {
        let body = message.get_message_body();
        let n = body.unicode_len();
        if n == 0 || body.get_char(0) != '!' || n == 1 {
            return Err(CommandError::InvalidMessage);
        }
        Ok(())
    }

    /// The command that `message` asks for.
    pub fn try_execute_command(&self, message: TwitchIrcUserMessage) -> (r: Result<ResponseEvent, CommandError>)
        requires
            crate::text::starts_with(message@.text, "!"@),
        ensures
            match command_outcome(
                message@,
                self.channel.spec_login(),
                self.user_commands@,
                self.user_commands_alternate_keywords@,
            ) {
                ProcessOutcome::Event(e) => r matches Ok(x) && x@ == e,
                ProcessOutcome::Failed(err) => r == Err::<ResponseEvent, CommandError>(err),
                ProcessOutcome::Panics => false,
            },
    {
        proof {
            reveal_strlit("!");
            assert(message@.text.subrange(0, 1) == "!"@);
            assert(message@.text.subrange(0, 1)[0] == message@.text[0]);
        }
        if !(message.get_target_channel() == self.channel.get_login()) {
            return Err(CommandError::NotClientChannel);
        }
        match self.verify_message(&message) {
            Err(e) => {
                return Err(e);
            },
            Ok(()) => {},
        }
        let body = chars_of(message.get_message_body().as_str());
        let after_bang = chars_from(&body, 1);
        assert(after_bang@ =~= message@.text.drop_first());
        let words = split_chars(&after_bang, ' ');
        proof {
            lemma_split_on_len(after_bang@, ' ');
        }
        assert(words[0]@ == split_on(after_bang@, ' ')[0]);
        let first = string_of(&words[0]);
        let key = ChatCommandKey::from(to_lowercase(first.as_str()));
        let args = strings_from(&words, 1);
        let native = match self.user_commands.get(&key) {
            Some(c) => Some(c),
            None => self.user_commands_alternate_keywords.get(&key),
        };
        let request = CommandRequest { message, command: key, args, native };
        Ok(ResponseEvent::Command(request))
    }

    /// Reads the line in `context` and says what it asks of the bot; `None`
    /// where reading it means cutting its text inside a character.
    /// A PING queues the PONG answer in `context`.
    pub fn try_process_response(&self, context: &mut ResponseContext<'_, DefaultMessageParser>) -> (r: Option<Result<ResponseEvent, CommandError>>)
        ensures
            match process_line(
                old(context).spec_received(),
                self.channel.spec_login(),
                self.user_commands@,
                self.user_commands_alternate_keywords@,
            ) {
                ProcessOutcome::Event(e) => r matches Some(Ok(x)) && x@ == e,
                ProcessOutcome::Failed(err) => r == Some(Err::<ResponseEvent, CommandError>(err)),
                ProcessOutcome::Panics => r is None,
            },
            final(context).spec_parser() == old(context).spec_parser(),
            final(context).spec_received() == old(context).spec_received(),
            final(context).spec_replies() == (if r matches Some(Ok(ResponseEvent::Ping)) {
                old(context).spec_replies().push(pong_line())
            } else {
                old(context).spec_replies()
            }),
    {
        let received = context.get_received_response();
        let line = chars_of(received.as_str());
        if begins_with(received.as_str(), ":tmi.twitch.tv ") {
            let prefix_len = ":tmi.twitch.tv ".unicode_len();
            let rest = chars_from(&line, prefix_len);
            let (count, bytes) = prefix_within_bytes(&rest, 3);
            if bytes != 3 {
                return None;
            }
            let code = string_of_range(&rest, 0, count);
            assert(rest@.subrange(0, count as int) =~= rest@.take(count as int));
            let known = process_twitch_irc_code(code.as_str());
            return Some(Ok(ResponseEvent::TwitchCode { code, known }));
        }
        if begins_with(received.as_str(), "PING ") {
            context.add_response_to_reply_with(String::from_str("PONG :tmi.twitch.tv"));
            return Some(Ok(ResponseEvent::Ping));
        }
        let client = chars_of(self.channel.get_login().as_str());
        match decipher_line_chars(&line, &client) {
            None => None,
            Some(Err(_)) => Some(Ok(ResponseEvent::Unrecognized)),
            Some(Ok(TwitchIrcMessageType::Client)) => Some(Ok(ResponseEvent::Client)),
            Some(Ok(TwitchIrcMessageType::Message(message))) => {
                if begins_with(message.get_message_body().as_str(), "!") {
                    Some(self.try_execute_command(message))
                } else {
                    Some(Ok(ResponseEvent::Chat(message)))
                }
            },
            Some(Ok(TwitchIrcMessageType::JoiningChannel { joiner, channel })) => Some(
                Ok(ResponseEvent::Joined { joiner, channel }),
            ),
            Some(Ok(TwitchIrcMessageType::LeavingChannel { leaver, channel })) => Some(
                Ok(ResponseEvent::Left { leaver, channel }),
            ),
        }
    }

    /// Reads the line in `context` and says what it asks of the bot. A PING
    /// queues the PONG answer in `context`.
    pub fn process_response(&self, context: &mut ResponseContext<'_, DefaultMessageParser>) -> (r: Result<ResponseEvent, CommandError>)
        requires
            !(process_line(
                old(context).spec_received(),
                self.channel.spec_login(),
                self.user_commands@,
                self.user_commands_alternate_keywords@,
            ) is Panics),
        ensures
            match process_line(
                old(context).spec_received(),
                self.channel.spec_login(),
                self.user_commands@,
                self.user_commands_alternate_keywords@,
            ) {
                ProcessOutcome::Event(e) => r matches Ok(x) && x@ == e,
                ProcessOutcome::Failed(err) => r == Err::<ResponseEvent, CommandError>(err),
                ProcessOutcome::Panics => false,
            },
            final(context).spec_parser() == old(context).spec_parser(),
            final(context).spec_received() == old(context).spec_received(),
            final(context).spec_replies() == (if r matches Ok(ResponseEvent::Ping) {
                old(context).spec_replies().push(pong_line())
            } else {
                old(context).spec_replies()
            }),
    {
        match self.try_process_response(context) {
            Some(r) => r,
            None => Err(CommandError::InvalidMessage),
        }
    }

    /// The built-in commands: by their main key, and by their other keys.
    pub fn get_user_commands_including_alternates(&self) -> (maps: (&UserCommandsMap, &UserCommandsMap))
        ensures
            maps.0@ == self.user_commands@,
            maps.1@ == self.user_commands_alternate_keywords@,
    {
        (&self.user_commands, &self.user_commands_alternate_keywords)
    }
}

} // verus!

verus! {

/// The host part that Twitch's IRC server puts after a speaker's name.
pub open spec fn twitch_host() -> Seq<char> {
    ".tmi.twitch.tv"@
}

/// `:speaker!speaker@speaker.tmi.twitch.tv`, the prefix with which Twitch's
/// IRC server names a user, without its colon.
pub open spec fn user_prefix(speaker: Seq<char>) -> Seq<char> {
    speaker + seq!['!'] + speaker + seq!['@'] + speaker + twitch_host()
}

/// The line in which Twitch's IRC server passes on `text`, said by
/// `speaker` in `channel`.
pub open spec fn privmsg_line(speaker: Seq<char>, channel: Seq<char>, text: Seq<char>) -> Seq<char> {
    seq![':'] + user_prefix(speaker) + seq![' '] + "PRIVMSG"@ + seq![' '] + (seq!['#'] + channel)
        + seq![' '] + (seq![':'] + text)
}

/// The line in which Twitch's IRC server says that `joiner` joined
/// `channel`.
pub open spec fn join_line(joiner: Seq<char>, channel: Seq<char>) -> Seq<char> {
    seq![':'] + user_prefix(joiner) + seq![' '] + "JOIN"@ + seq![' '] + (seq!['#'] + channel)
}

/// A name that can stand in a user prefix: no space, `!` or `@` in it.
pub open spec fn is_plain_name(name: Seq<char>) -> bool {
    lacks(name, ' ') && lacks(name, '!') && lacks(name, '@')
}

proof fn lemma_user_prefix(u: Seq<char>)
    requires
        is_plain_name(u),
    ensures
        lacks(user_prefix(u), ' '),
        user_prefix(u).len() == 3 * u.len() + 16,
        user_prefix(u).last() == 'v',
        split_on(user_prefix(u), '!')[0] == u,
        split_on(user_prefix(u), '!').len() >= 2,
{
    reveal_strlit(".tmi.twitch.tv");
    let host = twitch_host();
    assert(lacks(host, ' '));
    assert(lacks(seq!['!'], ' '));
    assert(lacks(seq!['@'], ' '));
    lemma_lacks_concat(u, seq!['!'], ' ');
    lemma_lacks_concat(u + seq!['!'], u, ' ');
    lemma_lacks_concat(u + seq!['!'] + u, seq!['@'], ' ');
    lemma_lacks_concat(u + seq!['!'] + u + seq!['@'], u, ' ');
    lemma_lacks_concat(u + seq!['!'] + u + seq!['@'] + u, host, ' ');
    let rest = u + seq!['@'] + u + host;
    assert(user_prefix(u) =~= u + seq!['!'] + rest);
    lemma_split_at(u, rest, '!');
    lemma_split_without(u, '!');
    lemma_split_on_len(rest, '!');
}

/// What stands between the user prefix of a line and its first `!` after
/// it starts with the speaker's name and `@`.
proof fn lemma_second_bang_piece(u: Seq<char>, w: Seq<char>)
    requires
        is_plain_name(u),
    ensures
        split_on(split_on(u + seq!['!'] + (u + seq!['@'] + w), '!')[1], '@')[0] == u,
        split_on(u + seq!['!'] + (u + seq!['@'] + w), '!').len() >= 2,
        split_on(u + seq!['!'] + (u + seq!['@'] + w), '!')[0] == u,
{
    let r = u + seq!['@'] + w;
    lemma_split_at(u, r, '!');
    lemma_split_without(u, '!');
    lemma_split_on_len(r, '!');
    assert(r =~= u + (seq!['@'] + w));
    lemma_split_prefix(u, seq!['@'] + w, '!');
    lemma_split_on_len(seq!['@'] + w, '!');
    assert(lacks(seq!['@'], '!'));
    lemma_split_prefix(seq!['@'], w, '!');
    lemma_split_on_len(w, '!');
    let piece = split_on(w, '!')[0];
    assert(split_on(u + seq!['!'] + r, '!')[1] == split_on(r, '!')[0]);
    assert(split_on(r, '!')[0] =~= u + seq!['@'] + piece);
    lemma_split_at(u, piece, '@');
    lemma_split_without(u, '@');
}

/// A message that a user says in a channel reads back as that message:
/// its speaker, its text and its channel.
pub proof fn lemma_privmsg_deciphered(speaker: Seq<char>, channel: Seq<char>, text: Seq<char>, client: Seq<char>)
    requires
        is_plain_name(speaker),
        channel.len() > 0,
        lacks(channel, ' '),
        text.len() > 0,
        single_spaced(text),
    ensures
        decipher_line(privmsg_line(speaker, channel, text), client) == DecipherOutcome::Parsed(
            IrcMessageView::Message(
                UserMessageView { speaker: speaker, text: text, channel: channel },
            ),
        ),
{
    reveal_strlit("PRIVMSG");
    reveal_strlit(" ");
    let u = speaker;
    let a = user_prefix(u);
    let p = "PRIVMSG"@;
    let h = seq!['#'] + channel;
    let t = seq![':'] + text;
    let line = privmsg_line(u, channel, text);
    let d = a + seq![' '] + p + seq![' '] + h + seq![' '] + t;
    assert(line =~= seq![':'] + d);
    assert(line.drop_first() =~= d);
    lemma_user_prefix(u);
    // the line has no run of spaces
    assert(lacks(p, ' '));
    assert(lacks(seq!['#'], ' '));
    lemma_lacks_concat(seq!['#'], channel, ' ');
    lemma_single_spaced_lacks(a);
    lemma_single_spaced_lacks(p);
    lemma_single_spaced_lacks(h);
    lemma_single_spaced_cons(':', text);
    lemma_single_spaced_join(a, p);
    lemma_single_spaced_join(a + seq![' '] + p, h);
    assert(h.last() == channel.last());
    assert(channel[channel.len() - 1] != ' ');
    lemma_single_spaced_join(a + seq![' '] + p + seq![' '] + h, t);
    lemma_collapse_single_spaced(d);
    // the pieces between `!`s
    let w = u + twitch_host() + seq![' '] + p + seq![' '] + h + seq![' '] + t;
    assert(d =~= u + seq!['!'] + (u + seq!['@'] + w));
    lemma_second_bang_piece(u, w);
    // the words
    let r2 = h + seq![' '] + t;
    let r1 = p + seq![' '] + r2;
    assert(d =~= a + seq![' '] + r1);
    lemma_split_at(a, r1, ' ');
    lemma_split_at(p, r2, ' ');
    lemma_split_at(h, t, ' ');
    lemma_split_without(a, ' ');
    lemma_split_without(p, ' ');
    lemma_split_without(h, ' ');
    let words = split_on(d, ' ');
    let tail = split_on(t, ' ');
    lemma_split_on_len(t, ' ');
    assert(words =~= seq![a, p, h] + tail);
    assert(words[2] == h);
    assert(is_ascii_char('#'));
    assert(h.drop_first() =~= channel);
    // the fourth word starts the text
    lemma_split_first_non_empty(text, ' ');
    assert(lacks(seq![':'], ' '));
    lemma_split_prefix(seq![':'], text, ' ');
    assert(words[3] == tail[0]);
    assert(tail[0] =~= seq![':'] + split_on(text, ' ')[0]);
    assert(is_ascii_char(':'));
    assert(words.skip(3) =~= tail);
    lemma_join_split(t, ' ');
    assert(" "@ =~= seq![' ']);
    assert(t.drop_first() =~= text);
}

} // verus!

verus! {

/// A line in which a user joins a channel reads back as that join.
pub proof fn lemma_join_deciphered(joiner: Seq<char>, channel: Seq<char>, client: Seq<char>)
    requires
        is_plain_name(joiner),
        channel.len() > 0,
        lacks(channel, ' '),
    ensures
        decipher_line(join_line(joiner, channel), client) == DecipherOutcome::Parsed(
            IrcMessageView::JoiningChannel { joiner: joiner, channel: channel },
        ),
{
    reveal_strlit("JOIN");
    reveal_strlit("PRIVMSG");
    let u = joiner;
    let a = user_prefix(u);
    let p = "JOIN"@;
    let h = seq!['#'] + channel;
    let line = join_line(u, channel);
    let d = a + seq![' '] + p + seq![' '] + h;
    assert(line =~= seq![':'] + d);
    assert(line.drop_first() =~= d);
    lemma_user_prefix(u);
    assert(lacks(p, ' '));
    assert(lacks(seq!['#'], ' '));
    lemma_lacks_concat(seq!['#'], channel, ' ');
    lemma_single_spaced_lacks(a);
    lemma_single_spaced_lacks(p);
    lemma_single_spaced_lacks(h);
    lemma_single_spaced_join(a, p);
    lemma_single_spaced_join(a + seq![' '] + p, h);
    lemma_collapse_single_spaced(d);
    let w = u + twitch_host() + seq![' '] + p + seq![' '] + h;
    assert(d =~= u + seq!['!'] + (u + seq!['@'] + w));
    lemma_second_bang_piece(u, w);
    let r1 = p + seq![' '] + h;
    assert(d =~= a + seq![' '] + r1);
    lemma_split_at(a, r1, ' ');
    lemma_split_at(p, h, ' ');
    lemma_split_without(a, ' ');
    lemma_split_without(p, ' ');
    lemma_split_without(h, ' ');
    let words = split_on(d, ' ');
    assert(words =~= seq![a, p, h]);
    assert(is_ascii_char('#'));
    assert(h.drop_first() =~= channel);
    assert(p != "PRIVMSG"@) by {
        assert(p.len() != "PRIVMSG"@.len());
    }
}

/// The line `:client.tmi.twitch.tv rest` that Twitch's IRC server sends to
/// the bot's own account `client`, such as its numbered replies after a
/// join.
pub open spec fn client_line(client: Seq<char>, rest: Seq<char>) -> Seq<char> {
    seq![':'] + client + twitch_host() + seq![' '] + rest
}

/// Every line that the server addresses to the bot's own account reads as a
/// message to the bot, whatever numbered reply follows the host.
pub proof fn lemma_client_line_deciphered(client: Seq<char>, rest: Seq<char>)
    requires
        lacks(client, ' '),
        lacks(client, '.'),
        lacks(client, '!'),
        lacks(rest, '.'),
        lacks(rest, '!'),
        exists|i: int| 0 <= i < rest.len() && rest[i] != ' ',
    ensures
        decipher_line(client_line(client, rest), client) == DecipherOutcome::Parsed(
            IrcMessageView::Client,
        ),
{
    reveal_strlit(".tmi.twitch.tv");
    let host = twitch_host();
    let c1 = client + host;
    let x = c1 + seq![' '];
    let line = client_line(client, rest);
    assert(line.drop_first() =~= x + rest);
    // what the bot's part of the line becomes
    assert(lacks(host, ' '));
    lemma_lacks_concat(client, host, ' ');
    lemma_single_spaced_lacks(c1);
    lemma_single_spaced_lacks(Seq::<char>::empty());
    assert(c1.last() == 'v');
    lemma_single_spaced_join(c1, Seq::<char>::empty());
    assert(c1 + seq![' '] + Seq::<char>::empty() =~= x);
    lemma_collapse_single_spaced(x);
    let d = collapse_spaces(x + rest);
    lemma_collapse_concat(x, rest);
    lemma_collapse_grows(x, rest);
    let z = d.skip(x.len() as int);
    assert(d =~= x + z);
    assert forall|i: int| 0 <= i < z.len() implies z[i] != '.' && z[i] != '!' by {
        assert(z[i] == d[x.len() + i]);
        let j = choose|j: int| 0 <= j < rest.len() && #[trigger] d[x.len() + i] == rest[j];
    }
    // no `!`: a line for the bot's account
    assert(lacks(host, '!'));
    lemma_lacks_concat(client, host, '!');
    assert(lacks(seq![' '], '!'));
    lemma_lacks_concat(c1, seq![' '], '!');
    lemma_lacks_concat(x, z, '!');
    lemma_split_without(d, '!');
    // the pieces between dots
    let tmi = "tmi"@;
    let twitch = "twitch"@;
    let tail = seq!['t', 'v', ' '] + z;
    reveal_strlit("tmi");
    reveal_strlit("twitch");
    assert(d =~= client + seq!['.'] + (tmi + seq!['.'] + (twitch + seq!['.'] + tail)));
    assert(lacks(tmi, '.'));
    assert(lacks(twitch, '.'));
    assert(lacks(seq!['t', 'v', ' '], '.'));
    lemma_lacks_concat(seq!['t', 'v', ' '], z, '.');
    lemma_split_at(client, tmi + seq!['.'] + (twitch + seq!['.'] + tail), '.');
    lemma_split_at(tmi, twitch + seq!['.'] + tail, '.');
    lemma_split_at(twitch, tail, '.');
    lemma_split_without(client, '.');
    lemma_split_without(tmi, '.');
    lemma_split_without(twitch, '.');
    lemma_split_without(tail, '.');
    let dots = split_on(d, '.');
    assert(dots =~= seq![client, tmi, twitch, tail]);
    // the reply after the host: at least four bytes, three of them ASCII
    assert(z.len() >= 1);
    lemma_utf8_len_at_least(tail);
    assert(tail[0] == 't' && tail[1] == 'v' && tail[2] == ' ');
    assert(is_ascii_char('t') && is_ascii_char('v') && is_ascii_char(' '));
    lemma_boundary_after_three_ascii(tail);
}

/// A line that a user prefix starts is no numbered reply of the server and
/// no PING.
proof fn lemma_user_line_kind(u: Seq<char>, rest: Seq<char>)
    requires
        is_plain_name(u),
    ensures
        !crate::text::starts_with(seq![':'] + user_prefix(u) + rest, tmi_prefix()),
        !crate::text::starts_with(seq![':'] + user_prefix(u) + rest, "PING "@),
{
    reveal_strlit(":tmi.twitch.tv ");
    reveal_strlit("PING ");
    lemma_user_prefix(u);
    let line = seq![':'] + user_prefix(u) + rest;
    assert(line[14] == user_prefix(u)[13]);
    if crate::text::starts_with(line, tmi_prefix()) {
        assert(line.subrange(0, 15)[14] == tmi_prefix()[14]);
    }
    if crate::text::starts_with(line, "PING "@) {
        assert(line.subrange(0, 5)[0] == "PING "@[0]);
    }
}

/// Every line that the server addresses to the bot's own account is
/// reported as a message to the bot, whatever numbered reply it carries.
pub proof fn lemma_client_line_processed(
    client: Seq<char>,
    rest: Seq<char>,
    primary: Map<Seq<char>, NativeCommand>,
    alternate: Map<Seq<char>, NativeCommand>,
)
    requires
        lacks(client, ' '),
        lacks(client, '.'),
        lacks(client, '!'),
        lacks(rest, '.'),
        lacks(rest, '!'),
        exists|i: int| 0 <= i < rest.len() && rest[i] != ' ',
    ensures
        process_line(client_line(client, rest), client, primary, alternate) == ProcessOutcome::Event(
            ResponseEventView::Client,
        ),
{
    lemma_client_line_deciphered(client, rest);
    reveal_strlit(":tmi.twitch.tv ");
    reveal_strlit("PING ");
    reveal_strlit(".tmi.twitch.tv");
    let line = client_line(client, rest);
    let host = twitch_host();
    let n = client.len() as int;
    let p = tmi_prefix();
    assert(line[0] == ':');
    if crate::text::starts_with(line, "PING "@) {
        assert(line.subrange(0, 5)[0] == "PING "@[0]);
    }
    if crate::text::starts_with(line, p) {
        let head = line.subrange(0, 15);
        if n == 0 {
            assert(line[1] == host[0] && head[1] == p[1]);
        } else if n == 1 {
            assert(line[2] == host[0] && head[2] == p[2]);
        } else if n == 2 {
            assert(line[3] == host[0] && head[3] == p[3]);
        } else if n == 3 {
            assert(line[6] == host[2] && head[6] == p[6]);
        } else {
            assert(line[4] == client[3] && head[4] == p[4]);
        }
    }
}

/// A message that a user says in a channel is a chat message to the bot, or
/// the command it asks for where it starts with `!`.
pub proof fn lemma_privmsg_processed(
    speaker: Seq<char>,
    channel: Seq<char>,
    text: Seq<char>,
    client: Seq<char>,
    primary: Map<Seq<char>, NativeCommand>,
    alternate: Map<Seq<char>, NativeCommand>,
)
    requires
        is_plain_name(speaker),
        channel.len() > 0,
        lacks(channel, ' '),
        text.len() > 0,
        single_spaced(text),
    ensures
        ({
            let m = UserMessageView { speaker: speaker, text: text, channel: channel };
            process_line(privmsg_line(speaker, channel, text), client, primary, alternate) == if crate::text::starts_with(text, "!"@) {
                command_outcome(m, client, primary, alternate)
            } else {
                ProcessOutcome::Event(ResponseEventView::Chat(m))
            }
        }),
{
    lemma_privmsg_deciphered(speaker, channel, text, client);
    let rest = seq![' '] + "PRIVMSG"@ + seq![' '] + (seq!['#'] + channel) + seq![' '] + (seq![':'] + text);
    assert(privmsg_line(speaker, channel, text) =~= seq![':'] + user_prefix(speaker) + rest);
    lemma_user_line_kind(speaker, rest);
}

/// A user joining a channel is reported as such.
pub proof fn lemma_join_processed(
    joiner: Seq<char>,
    channel: Seq<char>,
    client: Seq<char>,
    primary: Map<Seq<char>, NativeCommand>,
    alternate: Map<Seq<char>, NativeCommand>,
)
    requires
        is_plain_name(joiner),
        channel.len() > 0,
        lacks(channel, ' '),
    ensures
        process_line(join_line(joiner, channel), client, primary, alternate) == ProcessOutcome::Event(
            ResponseEventView::Joined { joiner: joiner, channel: channel },
        ),
{
    lemma_join_deciphered(joiner, channel, client);
    let rest = seq![' '] + "JOIN"@ + seq![' '] + (seq!['#'] + channel);
    assert(join_line(joiner, channel) =~= seq![':'] + user_prefix(joiner) + rest);
    lemma_user_line_kind(joiner, rest);
}

/// Every PING of the server is recognised as one (and answered: see
/// `DefaultMessageParser::process_response`).
pub proof fn lemma_ping_recognised(
    line: Seq<char>,
    client: Seq<char>,
    primary: Map<Seq<char>, NativeCommand>,
    alternate: Map<Seq<char>, NativeCommand>,
)
    requires
        crate::text::starts_with(line, "PING "@),
    ensures
        process_line(line, client, primary, alternate) == ProcessOutcome::Event(ResponseEventView::Ping),
{
    reveal_strlit(":tmi.twitch.tv ");
    reveal_strlit("PING ");
    assert(line[0] == line.subrange(0, 5)[0]);
    if crate::text::starts_with(line, tmi_prefix()) {
        assert(line[0] == line.subrange(0, 15)[0]);
    }
}

} // verus!

verus! {

/// The text of a chat command: `!`, its key, and each argument after a
/// space.
pub open spec fn command_text(key: Seq<char>, args: Seq<Seq<char>>) -> Seq<char> {
    seq!['!'] + join_with(seq![key] + args, seq![' '])
}

/// A command said in the bot's own channel is recognised with its key in
/// lower case and its arguments, and runs the built-in command stored under
/// that key (by its main key first, then by its other keys), if any.
pub proof fn lemma_command_recognised(
    speaker: Seq<char>,
    client: Seq<char>,
    key: Seq<char>,
    args: Seq<Seq<char>>,
    primary: Map<Seq<char>, NativeCommand>,
    alternate: Map<Seq<char>, NativeCommand>,
)
    requires
        is_plain_name(speaker),
        client.len() > 0,
        lacks(client, ' '),
        key.len() > 0,
        lacks(key, ' '),
        forall|i: int| 0 <= i < args.len() ==> (#[trigger] args[i]).len() > 0 && lacks(args[i], ' '),
    ensures
        ({
            let text = command_text(key, args);
            let k = lowercase(key);
            process_line(privmsg_line(speaker, client, text), client, primary, alternate)
                == ProcessOutcome::Event(
                ResponseEventView::Command(
                    CommandRequestView {
                        message: UserMessageView { speaker: speaker, text: text, channel: client },
                        command: k,
                        args: args,
                        native: if primary.dom().contains(k) {
                            Some(primary[k])
                        } else if alternate.dom().contains(k) {
                            Some(alternate[k])
                        } else {
                            None
                        },
                    },
                ),
            )
        }),
{
    reveal_strlit("!");
    let pieces = seq![key] + args;
    assert forall|i: int| 0 <= i < pieces.len() implies (#[trigger] pieces[i]).len() > 0 && lacks(
        pieces[i],
        ' ',
    ) by {
        if i > 0 {
            assert(pieces[i] == args[i - 1]);
        }
    }
    let j = join_with(pieces, seq![' ']);
    lemma_join_single_spaced(pieces);
    lemma_single_spaced_cons('!', j);
    let text = command_text(key, args);
    assert(text.drop_first() =~= j);
    assert(crate::text::starts_with(text, "!"@)) by {
        assert(text.subrange(0, 1) =~= "!"@);
    }
    lemma_privmsg_processed(speaker, client, text, client, primary, alternate);
    lemma_split_join(pieces, ' ');
    assert(split_on(text.drop_first(), ' ').skip(1) =~= args);
}

} // verus!
