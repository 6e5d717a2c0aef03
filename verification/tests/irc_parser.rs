use twitch_chat_bot::irc_chat::commands::command_key::ChatCommandKey;
use twitch_chat_bot::irc_chat::commands::commands_map::NativeCommand;
use twitch_chat_bot::irc_chat::parsers::default_irc_message_parser::{
    decipher_line_chars, process_twitch_irc_code, CommandError, DefaultMessageParser,
    ResponseEvent,
};
use twitch_chat_bot::irc_chat::response_context::ResponseContext;
use twitch_chat_bot::irc_chat::twitch_message_type::TwitchIrcMessageType;
use twitch_chat_bot::irc_chat::twitch_user_message::TwitchIrcUserMessage;
use twitch_chat_bot::oauth::{OauthToken, Signature};
use twitch_chat_bot::text::chars_of;
use twitch_chat_bot::user::{UserData, UserId, UserLogin};

fn bot_parser() -> DefaultMessageParser {
    let data = UserData::new(UserLogin::new("kubesbot".to_string()), UserId::new(1234));
    let token = OauthToken::new(Signature::new("abc123".to_string()));
    DefaultMessageParser::new(data, token)
}

fn process(parser: &DefaultMessageParser, line: &str) -> (Result<ResponseEvent, CommandError>, Vec<String>) {
    let mut context = ResponseContext::new(parser, line.to_string());
    let r = parser.process_response(&mut context);
    (r, context.get_responses_to_reply_with())
}

#[test]
fn ping_is_answered_with_pong() {
    let parser = bot_parser();
    let (r, replies) = process(&parser, "PING :tmi.twitch.tv");
    assert!(matches!(r, Ok(ResponseEvent::Ping)));
    assert_eq!(replies, vec!["PONG :tmi.twitch.tv".to_string()]);
}

#[test]
fn known_numbered_reply() {
    let parser = bot_parser();
    let (r, replies) = process(&parser, ":tmi.twitch.tv 001 kubesbot :Welcome, GLHF!");
    match r {
        Ok(ResponseEvent::TwitchCode { code, known }) => {
            assert_eq!(code, "001");
            assert!(known);
        }
        _ => panic!("expected a numbered reply"),
    }
    assert!(replies.is_empty());
}

#[test]
fn unknown_numbered_reply() {
    let parser = bot_parser();
    let (r, _) = process(&parser, ":tmi.twitch.tv 999 kubesbot :what");
    match r {
        Ok(ResponseEvent::TwitchCode { code, known }) => {
            assert_eq!(code, "999");
            assert!(!known);
        }
        _ => panic!("expected a numbered reply"),
    }
}

#[test]
fn irc_codes_known_to_the_parser() {
    for code in ["001", "002", "003", "004", "372", "375", "376", "421"] {
        assert!(process_twitch_irc_code(code));
    }
    assert!(!process_twitch_irc_code("353"));
    assert!(!process_twitch_irc_code(""));
}

#[test]
fn chat_message_is_read() {
    let parser = bot_parser();
    let (r, replies) = process(
        &parser,
        ":someviewer!someviewer@someviewer.tmi.twitch.tv PRIVMSG #kubesbot :hello there, bot",
    );
    match r {
        Ok(ResponseEvent::Chat(m)) => {
            assert_eq!(m.get_speaker().get_value(), "someviewer");
            assert_eq!(m.get_target_channel().get_value(), "kubesbot");
            assert_eq!(m.get_message_body(), "hello there, bot");
        }
        _ => panic!("expected a chat message"),
    }
    assert!(replies.is_empty());
}

#[test]
fn runs_of_spaces_count_as_one() {
    let parser = bot_parser();
    let (r, _) = process(
        &parser,
        ":someviewer!someviewer@someviewer.tmi.twitch.tv  PRIVMSG   #kubesbot :two  spaces",
    );
    match r {
        Ok(ResponseEvent::Chat(m)) => {
            assert_eq!(m.get_target_channel().get_value(), "kubesbot");
            assert_eq!(m.get_message_body(), "two spaces");
        }
        _ => panic!("expected a chat message"),
    }
}

#[test]
fn command_by_alternate_key_in_upper_case() {
    let parser = bot_parser();
    let (r, _) = process(
        &parser,
        ":someviewer!someviewer@someviewer.tmi.twitch.tv PRIVMSG #kubesbot :!SO @friend extra",
    );
    match r {
        Ok(ResponseEvent::Command(c)) => {
            assert_eq!(c.command.get_value(), "so");
            assert_eq!(c.args, vec!["@friend".to_string(), "extra".to_string()]);
            assert_eq!(c.native, Some(NativeCommand::Shoutout));
            assert_eq!(c.message.get_speaker().get_value(), "someviewer");
        }
        _ => panic!("expected a command"),
    }
}

#[test]
fn command_by_main_key() {
    let parser = bot_parser();
    let (r, _) = process(&parser, ":a!a@a.tmi.twitch.tv PRIVMSG #kubesbot :!flipcoin");
    match r {
        Ok(ResponseEvent::Command(c)) => {
            assert_eq!(c.command.get_value(), "flipcoin");
            assert!(c.args.is_empty());
            assert_eq!(c.native, Some(NativeCommand::Flipcoin));
        }
        _ => panic!("expected a command"),
    }
}

#[test]
fn unknown_command_has_no_native_command() {
    let parser = bot_parser();
    let (r, _) = process(&parser, ":a!a@a.tmi.twitch.tv PRIVMSG #kubesbot :!dance now");
    match r {
        Ok(ResponseEvent::Command(c)) => {
            assert_eq!(c.command.get_value(), "dance");
            assert_eq!(c.args, vec!["now".to_string()]);
            assert_eq!(c.native, None);
        }
        _ => panic!("expected a command"),
    }
}

#[test]
fn command_outside_own_channel_is_refused() {
    let parser = bot_parser();
    let (r, _) = process(&parser, ":a!a@a.tmi.twitch.tv PRIVMSG #otherchannel :!lurk");
    assert!(matches!(r, Err(CommandError::NotClientChannel)));
}

#[test]
fn lone_bang_is_refused() {
    let parser = bot_parser();
    let (r, _) = process(&parser, ":a!a@a.tmi.twitch.tv PRIVMSG #kubesbot :!");
    assert!(matches!(r, Err(CommandError::InvalidMessage)));
}

#[test]
fn join_is_read() {
    let parser = bot_parser();
    let (r, _) = process(&parser, ":newviewer!newviewer@newviewer.tmi.twitch.tv JOIN #kubesbot");
    match r {
        Ok(ResponseEvent::Joined { joiner, channel }) => {
            assert_eq!(joiner.get_value(), "newviewer");
            assert_eq!(channel.get_value(), "kubesbot");
        }
        _ => panic!("expected a join"),
    }
}

#[test]
fn client_line_is_read() {
    let parser = bot_parser();
    let (r, _) = process(&parser, ":kubesbot.tmi.twitch.tv 353 kubesbot = #kubesbot :kubesbot");
    assert!(matches!(r, Ok(ResponseEvent::Client)));
}

#[test]
fn unreadable_lines_are_unrecognized() {
    let parser = bot_parser();
    for line in [
        "no colon here",
        ":other.tmi.twitch.tv 353 kubesbot",
        ":a!b@a.tmi.twitch.tv PRIVMSG #kubesbot :mismatched names",
        ":a!a@a.tmi.twitch.tv PART #kubesbot",
        ":a!a@a.tmi.twitch.tv PRIVMSG #kubesbot",
        "",
    ] {
        let (r, replies) = process(&parser, line);
        assert!(matches!(r, Ok(ResponseEvent::Unrecognized)), "line {:?}", line);
        assert!(replies.is_empty());
    }
}

#[test]
fn decipher_line_directly() {
    let line = chars_of(":v!v@v.tmi.twitch.tv PRIVMSG #chan :hi");
    let client = chars_of("bot");
    match decipher_line_chars(&line, &client) {
        Some(Ok(TwitchIrcMessageType::Message(m))) => {
            assert_eq!(m.get_speaker().get_value(), "v");
            assert_eq!(m.get_message_body(), "hi");
            assert_eq!(m.get_target_channel().get_value(), "chan");
        }
        _ => panic!("expected a message"),
    }
    assert!(matches!(decipher_line_chars(&chars_of("PING"), &client), Some(Err(()))));
    assert!(decipher_line_chars(&chars_of(":v!v@v.tmi.twitch.tv PRIVMSG \u{e9}chan :hi"), &client).is_none());
}

#[test]
fn lines_cut_inside_a_character() {
    let parser = bot_parser();
    for line in [
        ":tmi.twitch.tv \u{e9}\u{e9}\u{e9}",
        ":v!v@v.tmi.twitch.tv PRIVMSG #chan \u{e9}t\u{e9}",
        ":kubesbot.tmi.twitch.tv\u{e9} 353",
    ] {
        let mut context = ResponseContext::new(&parser, line.to_string());
        assert!(parser.try_process_response(&mut context).is_none(), "{:?}", line);
        assert!(context.get_responses_to_reply_with().is_empty());
    }
    let mut context = ResponseContext::new(&parser, ":tmi.twitch.tv \u{e9}1 x".to_string());
    match parser.try_process_response(&mut context) {
        Some(Ok(ResponseEvent::TwitchCode { code, known })) => {
            assert_eq!(code, "\u{e9}1");
            assert!(!known);
        }
        _ => panic!("expected a numbered reply"),
    }
}

#[test]
fn parser_commands_and_lookup() {
    let mut parser = bot_parser();
    assert_eq!(
        parser.get_user_command(&ChatCommandKey::from("socials".to_string())),
        Some(NativeCommand::Socials)
    );
    assert_eq!(parser.get_user_command(&ChatCommandKey::from("so".to_string())), None);
    let (primary, alternate) = parser.get_user_commands_including_alternates();
    assert!(alternate.contains_key(&ChatCommandKey::from("so".to_string())));
    assert!(!primary.contains_key(&ChatCommandKey::from("so".to_string())));
    parser.add_command("dance", vec!["boogie"], NativeCommand::EnterLurk);
    assert_eq!(
        parser.get_user_command(&ChatCommandKey::from("dance".to_string())),
        Some(NativeCommand::EnterLurk)
    );
    let (_, alternate) = parser.get_user_commands_including_alternates();
    assert_eq!(alternate.get(&ChatCommandKey::from("boogie".to_string())), Some(NativeCommand::EnterLurk));
}

#[test]
fn verify_message_checks_the_bang() {
    let parser = bot_parser();
    let who = UserLogin::new("a".to_string());
    let chan = UserLogin::new("kubesbot".to_string());
    let ok = TwitchIrcUserMessage::new(who.clone(), "!x".to_string(), chan.clone());
    let lone = TwitchIrcUserMessage::new(who.clone(), "!".to_string(), chan.clone());
    let plain = TwitchIrcUserMessage::new(who, "x".to_string(), chan);
    assert_eq!(parser.verify_message(&ok), Ok(()));
    assert_eq!(parser.verify_message(&lone), Err(CommandError::InvalidMessage));
    assert_eq!(parser.verify_message(&plain), Err(CommandError::InvalidMessage));
}
