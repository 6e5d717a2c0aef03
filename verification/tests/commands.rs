use twitch_chat_bot::irc_chat::commands::custom_commands::{execute_custom_command, CustomCommands};
use twitch_chat_bot::irc_chat::commands::command_key::ChatCommandKey;
use twitch_chat_bot::irc_chat::commands::commands_map::{
    get_user_commands_including_alternates, is_built_in_command, NativeCommand, UserCommandsMap,
};
use twitch_chat_bot::irc_chat::commands::replies::{
    add_custom_text_command, all_commands, blame_random_user, blame_user_at, enter_lurk,
    flipcoin, flipcoin_with, random_selection, random_selection_with, reply_to,
    command_arguments_warning, level_reply, send_message_from_user_format,
    unexpected_arguments_warning, shoutout, shoutout_line, socials,
    AddCustomCommandDecision,
    RandomSelectionOutcome,
};
use twitch_chat_bot::irc_chat::twitch_user_message::TwitchIrcUserMessage;
use twitch_chat_bot::user::UserLogin;

fn login(s: &str) -> UserLogin {
    UserLogin::new(s.to_string())
}

fn message(speaker: &str, text: &str, channel: &str) -> TwitchIrcUserMessage {
    TwitchIrcUserMessage::new(login(speaker), text.to_string(), login(channel))
}

fn strings(v: &[&str]) -> Vec<String> {
    v.iter().map(|s| s.to_string()).collect()
}

#[test]
fn chat_line_format() {
    assert_eq!(send_message_from_user_format(&login("chan"), "hi"), "PRIVMSG #chan :hi");
    assert_eq!(reply_to(&message("a", "x", "chan"), "yo"), "PRIVMSG #chan :yo");
}

#[test]
fn shoutout_strips_at_sign() {
    let m = message("viewer", "!so @friend", "chan");
    let expected = "PRIVMSG #chan :Go check out friend!\nhttps://twitch.tv/friend";
    assert_eq!(shoutout_line(&m, &strings(&["@friend"])), expected);
    assert_eq!(shoutout_line(&m, &strings(&["friend", "ignored"])), expected);
}

#[test]
fn shoutout_without_name() {
    let m = message("viewer", "!so", "chan");
    let expected = "PRIVMSG #chan :A name to shoutout was not given!\nYou screwed up, viewer!";
    assert_eq!(shoutout_line(&m, &strings(&[])), expected);
    assert_eq!(shoutout_line(&m, &strings(&["@"])), expected);
    assert_eq!(shoutout_line(&m, &strings(&[""])), expected);
}

#[test]
fn socials_lists_links() {
    let m = message("viewer", "!socials", "chan");
    assert_eq!(
        socials(&m),
        "PRIVMSG #chan :Socials\nPatreon: https://patreon.com/KubesContent/\nTwitter: https://twitter.com/ContentKubes/\nDiscord: https://discord.gg/cB4Pyzk/\nInstagram: https://www.instagram.com/kubes_content/\nArtStation: https://www.artstation.com/kubes"
    );
}

#[test]
fn lurk_reply() {
    let m = message("viewer", "!lurk", "chan");
    assert_eq!(
        enter_lurk(&m),
        "PRIVMSG #chan :viewer bursts into smoke and disperses into the darkness. They will be missed."
    );
}

#[test]
fn flipcoin_replies() {
    let m = message("viewer", "!flipcoin", "chan");
    let heads = "PRIVMSG #chan :A coin somersaults into the air!\nIt lands heads!";
    let tails = "PRIVMSG #chan :A coin somersaults into the air!\nIt lands tails!";
    assert_eq!(flipcoin_with(&m, true), heads);
    assert_eq!(flipcoin_with(&m, false), tails);
    for _ in 0..20 {
        let line = flipcoin(&m);
        assert!(line == heads || line == tails);
    }
}

#[test]
fn blame_picks_a_chatter() {
    let chatters = vec![login("alice"), login("bob"), login("carol")];
    assert_eq!(
        blame_user_at(&login("chan"), &chatters, 1),
        "PRIVMSG #chan :bob is clearly the issue."
    );
    let possible: Vec<String> = ["alice", "bob", "carol"]
        .iter()
        .map(|n| format!("PRIVMSG #chan :{} is clearly the issue.", n))
        .collect();
    for _ in 0..30 {
        let lines = blame_random_user(&login("chan"), &chatters);
        assert_eq!(lines.len(), 2);
        assert_eq!(lines[0], "THIS IS A TEST MESSAGE");
        let line = lines[1].clone();
        assert!(possible.contains(&line));
    }
}

#[test]
fn random_selection_outcomes() {
    match random_selection_with(&strings(&["only"]), 0) {
        RandomSelectionOutcome::Reply(t) => assert_eq!(t, "Not enough arguments given to '!random'."),
        RandomSelectionOutcome::Flipcoin => panic!("expected a reply"),
    }
    match random_selection_with(&strings(&["a", "b", "c"]), 2) {
        RandomSelectionOutcome::Reply(t) => assert_eq!(t, "c"),
        RandomSelectionOutcome::Flipcoin => panic!("expected a reply"),
    }
    assert!(matches!(
        random_selection_with(&strings(&["Tails", "HEADS"]), 0),
        RandomSelectionOutcome::Flipcoin
    ));
    match random_selection_with(&strings(&["heads", "heads"]), 1) {
        RandomSelectionOutcome::Reply(t) => assert_eq!(t, "heads"),
        RandomSelectionOutcome::Flipcoin => panic!("heads twice is no coin"),
    }
    for _ in 0..30 {
        match random_selection(&strings(&["x", "y", "z"])) {
            RandomSelectionOutcome::Reply(t) => assert!(t == "x" || t == "y" || t == "z"),
            RandomSelectionOutcome::Flipcoin => panic!("expected a reply"),
        }
    }
    match random_selection(&strings(&[])) {
        RandomSelectionOutcome::Reply(t) => assert_eq!(t, "Not enough arguments given to '!random'."),
        RandomSelectionOutcome::Flipcoin => panic!("expected a reply"),
    }
}

#[test]
fn built_in_command_tables() {
    let (primary, alternate) = get_user_commands_including_alternates();
    let keys: Vec<String> = primary.keys().iter().map(|k| k.get_value()).collect();
    assert_eq!(
        keys,
        strings(&["addcommand", "commands", "blame", "flipcoin", "lurk", "random", "shoutout", "socials"])
    );
    let alternates: Vec<String> = alternate.keys().iter().map(|k| k.get_value()).collect();
    assert_eq!(
        alternates,
        strings(&["newcommand", "allcommands", "scapegoat", "5050", "50-50", "afk", "busy", "select", "shout", "so", "social"])
    );
    assert_eq!(alternate.get(&ChatCommandKey::from("50-50".to_string())), Some(NativeCommand::Flipcoin));
    assert_eq!(primary.get(&ChatCommandKey::from("lurk".to_string())), Some(NativeCommand::EnterLurk));
    assert!(is_built_in_command(&strings(&["so", "x"])));
    assert!(is_built_in_command(&strings(&["blame"])));
    assert!(!is_built_in_command(&strings(&["dance"])));
}

#[test]
fn commands_map_insert_and_get() {
    let mut map = UserCommandsMap::new();
    let key = |s: &str| ChatCommandKey::from(s.to_string());
    assert_eq!(map.get(&key("a")), None);
    map.insert(key("a"), NativeCommand::Socials);
    map.insert(key("b"), NativeCommand::Flipcoin);
    map.insert(key("a"), NativeCommand::Shoutout);
    assert_eq!(map.get(&key("a")), Some(NativeCommand::Shoutout));
    assert_eq!(map.get(&key("b")), Some(NativeCommand::Flipcoin));
    assert!(map.contains_key(&key("b")));
    assert!(!map.contains_key(&key("c")));
    let keys: Vec<String> = map.keys().iter().map(|k| k.get_value()).collect();
    assert_eq!(keys, strings(&["a", "b"]));
}

#[test]
fn all_commands_lists_main_keys() {
    let (primary, _) = get_user_commands_including_alternates();
    let m = message("viewer", "!commands", "chan");
    assert_eq!(
        all_commands(&m, &primary),
        "PRIVMSG #chan :Commands: !addcommand !commands !blame !flipcoin !lurk !random !shoutout !socials"
    );
    assert_eq!(all_commands(&m, &UserCommandsMap::new()), "PRIVMSG #chan :Commands: ");
}

#[test]
fn add_custom_command_decisions() {
    let client = login("kubesbot");
    let m = message("kubesbot", "!addcommand", "kubesbot");
    match add_custom_text_command(&m, &strings(&["hype", "let's", "go"]), &client) {
        AddCustomCommandDecision::Store { key, text } => {
            assert_eq!(key.get_value(), "hype");
            assert_eq!(text, "let's go");
        }
        _ => panic!("expected a store"),
    }
    match add_custom_text_command(&m, &strings(&["hype"]), &client) {
        AddCustomCommandDecision::Reply(t) => assert_eq!(
            t,
            "WARNING: Did not receive a command name and the text to display when that command is fired."
        ),
        _ => panic!("expected a warning"),
    }
    match add_custom_text_command(&m, &strings(&["so", "text"]), &client) {
        AddCustomCommandDecision::Reply(t) => assert_eq!(
            t,
            "WARNING: Cannot create custom command. \"!so\" is already a built-in command."
        ),
        _ => panic!("expected a warning"),
    }
    let elsewhere = message("kubesbot", "!addcommand", "other");
    assert!(matches!(
        add_custom_text_command(&elsewhere, &strings(&["hype", "go"]), &client),
        AddCustomCommandDecision::NotClientChannel
    ));
}

#[test]
fn command_key_lowercases_nothing_by_itself() {
    let k = ChatCommandKey::from("MiXeD".to_string());
    assert_eq!(k.get_value(), "MiXeD");
    assert_eq!(k.as_str(), "MiXeD");
}

#[test]
fn shoutout_only_for_owner_and_moderators() {
    let args = strings(&["@friend"]);
    let expected = "PRIVMSG #chan :Go check out friend!\nhttps://twitch.tv/friend".to_string();
    let mods = vec![login("moddy")];
    assert_eq!(shoutout(&message("chan", "!so @friend", "chan"), &args, &vec![]), Some(expected.clone()));
    assert_eq!(shoutout(&message("moddy", "!so @friend", "chan"), &args, &mods), Some(expected));
    assert_eq!(shoutout(&message("viewer", "!so @friend", "chan"), &args, &mods), None);
}

#[test]
fn level_answer() {
    assert_eq!(
        level_reply(&message("viewer", "!level", "chan"), 42),
        "PRIVMSG #chan :viewer's current level is 42."
    );
    assert_eq!(
        level_reply(&message("v", "!level", "c"), 0),
        "PRIVMSG #c :v's current level is 0."
    );
}

#[test]
fn custom_commands_answer_their_text() {
    let key = |s: &str| ChatCommandKey::from(s.to_string());
    let mut custom = CustomCommands::new();
    let m = message("viewer", "!hype", "chan");
    assert_eq!(execute_custom_command(&m, &key("hype"), &custom), None);
    custom.add_command(key("hype"), "let's go".to_string());
    custom.add_command(key("other"), "x".to_string());
    custom.add_command(key("hype"), "LET'S GO".to_string());
    assert_eq!(execute_custom_command(&m, &key("hype"), &custom), Some("PRIVMSG #chan :LET'S GO".to_string()));
    assert_eq!(custom.get(&key("other")), Some("x".to_string()));
    assert_eq!(custom.get(&key("missing")), None);
}

#[test]
fn warnings_about_arguments() {
    let none: Vec<String> = vec![];
    let some = strings(&["extra"]);
    assert_eq!(unexpected_arguments_warning("level", &none), None);
    assert_eq!(
        unexpected_arguments_warning("level", &some),
        Some("Arguments were given to '!level', should we not trigger '!level'? ".to_string())
    );
    assert_eq!(
        command_arguments_warning(NativeCommand::Socials, &some),
        Some("Arguments were given to '!flipcoin', should we not trigger '!flipcoin'? ".to_string())
    );
    assert_eq!(
        command_arguments_warning(NativeCommand::BlameRandomUser, &some),
        Some("Arguments were given to '!blame', should we not trigger '!blame'? ".to_string())
    );
    assert_eq!(
        command_arguments_warning(NativeCommand::EnterLurk, &some),
        Some("Arguments were given to '!lurk', should we not trigger '!lurk'? ".to_string())
    );
    assert_eq!(command_arguments_warning(NativeCommand::Flipcoin, &none), None);
    assert_eq!(command_arguments_warning(NativeCommand::Shoutout, &some), None);
}
