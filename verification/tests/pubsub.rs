use twitch_chat_bot::oauth::{OauthToken, Signature};
use twitch_chat_bot::irc_chat::parsers::default_irc_message_parser::DefaultMessageParser;
use twitch_chat_bot::irc_chat::commands::commands_map::NativeCommand;
use twitch_chat_bot::irc::commands::add_custom_text_command::add_custom_text_command;
use twitch_chat_bot::irc::commands::shoutout::shoutout;
use twitch_chat_bot::irc::commands::socials::socials;
use twitch_chat_bot::irc::parsers::pubsub::default_message_parser::DefaultPubSubParser;
use twitch_chat_bot::irc::response_context::ResponseContext;
use twitch_chat_bot::irc_chat::commands::replies::AddCustomCommandDecision;
use twitch_chat_bot::irc_chat::parsers::channel_points_event::{ChannelPointsEvent, ImageUrlSignature};
use twitch_chat_bot::irc_chat::twitch_user_message::TwitchIrcUserMessage;
use twitch_chat_bot::json::crawler::crawl_json;
use twitch_chat_bot::user::{UserData, UserId, UserLogin};

fn client() -> UserData {
    UserData::new(UserLogin::new("kubesbot".to_string()), UserId::new(1234))
}

fn event_json(topic: &str, image_url: &str) -> String {
    let reward = format!(
        r##"{{\"id\":\"6ef17bb2\",\"channel_id\":\"1234\",\"title\":\"hydrate\",\"prompt\":\"drink water\",\"cost\":10,\"is_user_input_required\":true,\"is_sub_only\":false,\"image\":null,\"default_image\":{{\"url_1x\":\"{0}\",\"url_2x\":\"https://static-cdn.jtvnw.net/custom-reward-images/default-2.png\",\"url_4x\":\"https://static-cdn.jtvnw.net/custom-reward-images/default-4.png\"}},\"background_color\":\"#00C7AC\",\"is_enabled\":true,\"is_paused\":false,\"is_in_stock\":true,\"max_per_stream\":{{\"is_enabled\":false,\"max_per_stream\":0}},\"should_redemptions_skip_request_queue\":true}}"##,
        image_url
    );
    let inner = format!(
        r##"{{\"type\":\"reward-redeemed\",\"data\":{{\"timestamp\":\"2019-11-12T01:29:34Z\",\"redemption\":{{\"id\":\"9203c6f0\",\"user\":{{\"id\":\"30515034\",\"login\":\"davethecust\",\"display_name\":\"DaveTheCust\"}},\"channel_id\":\"1234\",\"redeemed_at\":\"2019-12-11T18:52:53Z\",\"reward\":{0},\"user_input\":\"yeooo\",\"status\":\"FULFILLED\"}}}}}}"##,
        reward
    );
    format!(r#"{{"type":"MESSAGE","data":{{"topic":"{0}","message":"{1}"}}}}"#, topic, inner)
}

#[test]
fn channel_points_event_is_read() {
    let parser = DefaultPubSubParser::new();
    let msg = event_json("channel-points-channel-v1.1234", "HTTPS://STATIC-CDN.jtvnw.net/custom-reward-images/default-1.png");
    let context = ResponseContext::new(client(), msg.clone());
    let event = parser.try_process_response(&context).expect("readable").expect("an event");
    assert_eq!(event.timestamp, "2019-11-12T01:29:34Z");
    assert_eq!(event.id, "9203c6f0");
    assert_eq!(event.user.0.get_value(), 30515034);
    assert_eq!(event.user.1.get_value(), "davethecust");
    assert_eq!(event.user.2, "DaveTheCust");
    assert_eq!(event.channel_id.get_value(), 1234);
    assert_eq!(event.user_input, "yeooo");
    assert!(event.fulfilled);
    assert_eq!(event.reward.title, "hydrate");
    assert_eq!(event.reward.cost, 10);
    assert!(event.reward.user_input_required);
    assert!(!event.reward.sub_only);
    assert!(event.reward.image.is_none());
    assert_eq!(event.reward.background_color, "#00C7AC");
    assert_eq!(event.reward.max_per_stream, (false, 0));
    assert!(event.reward.should_redemptions_skip_request_queue);
    // the URL comes back in the form the URL parser writes it
    assert_eq!(
        event.reward.default_image.url_1x,
        "https://static-cdn.jtvnw.net/custom-reward-images/default-1.png"
    );
    let again = parser.process_response(&context).expect("an event");
    assert_eq!(again.id, "9203c6f0");
}

#[test]
fn other_accounts_and_other_messages_give_no_event() {
    let parser = DefaultPubSubParser::new();
    let msg = event_json("channel-points-channel-v1.999", "https://example.com/a.png");
    assert!(matches!(parser.try_process_response(&ResponseContext::new(client(), msg)), Some(None)));
    let pong = r#"{"type":"PONG"}"#.to_string();
    assert!(matches!(parser.try_process_response(&ResponseContext::new(client(), pong)), Some(None)));
}

#[test]
fn unreadable_messages_are_refused() {
    let parser = DefaultPubSubParser::new();
    let bad_url = event_json("channel-points-channel-v1.1234", "not a url");
    assert!(parser.try_process_response(&ResponseContext::new(client(), bad_url)).is_none());
    for msg in ["{", r#"{"data":{}}"#, r#"{"type":"MESSAGE"}"#, r#"{"type":"MESSAGE","data":{"topic":"channel-points-channel-v1.1234"}}"#] {
        assert!(parser.try_process_response(&ResponseContext::new(client(), msg.to_string())).is_none(), "{}", msg);
    }
}

#[test]
fn channel_points_event_from_json_directly() {
    let inner = r##"{"timestamp":"t","redemption":{"id":"r","user":{"id":"7","login":"l","display_name":"D"},"channel_id":"1","redeemed_at":"x","reward":{"id":"w","channel_id":"1","title":"T","prompt":"P","cost":"5","is_user_input_required":false,"is_sub_only":true,"image":{"url_1x":"https://a.example/1","url_2x":"https://a.example/2","url_4x":"https://a.example/4"},"default_image":{"url_1x":"https://a.example/1","url_2x":"https://a.example/2","url_4x":"https://a.example/4"},"background_color":"#fff","is_enabled":true,"is_paused":true,"is_in_stock":false,"max_per_stream":{"is_enabled":true,"max_per_stream":3},"should_redemptions_skip_request_queue":false},"user_input":"","status":"UNFULFILLED"}}"##;
    let e = ChannelPointsEvent::from_json(crawl_json(inner));
    assert!(!e.fulfilled);
    assert_eq!(e.reward.cost, 5);
    assert_eq!(e.reward.max_per_stream, (true, 3));
    let image: &ImageUrlSignature = e.reward.image.as_ref().unwrap();
    assert_eq!(image.url_4x, "https://a.example/4");
    assert!(ChannelPointsEvent::try_from_json(crawl_json(r#"{"timestamp":"t"}"#)).is_none());
}

fn message(speaker: &str, channel: &str) -> TwitchIrcUserMessage {
    TwitchIrcUserMessage::new(
        UserLogin::new(speaker.to_string()),
        "!cmd".to_string(),
        UserLogin::new(channel.to_string()),
    )
}

#[test]
fn first_commands_queue_their_replies() {
    let mut context = ResponseContext::new(client(), "line".to_string());
    shoutout(&message("viewer", "kubesbot"), &vec!["@friend".to_string()], &mut context);
    assert_eq!(socials(&message("viewer", "kubesbot"), &vec![], &mut context), None);
    let replies = context.get_responses_to_reply_with();
    assert_eq!(replies.len(), 2);
    let mut other = ResponseContext::new(client(), "line".to_string());
    assert_eq!(
        socials(&message("viewer", "kubesbot"), &vec!["x".to_string()], &mut other),
        Some("Arguments were given to '!flipcoin', should we not trigger '!flipcoin'? ".to_string())
    );
    assert_eq!(other.get_responses_to_reply_with()[0], replies[1]);
    assert_eq!(replies[0], "PRIVMSG #kubesbot :Go check out friend!\nhttps://twitch.tv/friend");
    assert_eq!(
        replies[1],
        "PRIVMSG #kubesbot :Patreon: https://patreon.com/KubesContent/Twitter: https://twitter.com/ContentKubes/Discord: https://discord.gg/cB4Pyzk/Instagram: https://www.instagram.com/kubes_content/ArtStation: https://www.artstation.com/kubes"
    );
    assert_eq!(context.get_initial_response(), "line");
    assert_eq!(context.get_client_user().get_user_id().get_value(), 1234);
}

#[test]
fn first_add_command_uses_client_channel() {
    let mut parser = DefaultMessageParser::new(client(), OauthToken::new(Signature::new("t".to_string())));
    parser.add_command("dance", vec!["boogie"], NativeCommand::EnterLurk);
    let context = ResponseContext::new(client(), "line".to_string());
    let args = vec!["hype".to_string(), "go".to_string()];
    assert!(matches!(
        add_custom_text_command(&parser, &message("kubesbot", "other"), &args, &context),
        AddCustomCommandDecision::NotClientChannel
    ));
    match add_custom_text_command(&parser, &message("kubesbot", "kubesbot"), &vec!["boogie".to_string(), "x".to_string()], &context) {
        AddCustomCommandDecision::Reply(t) => assert_eq!(
            t,
            "WARNING: Cannot create custom command. \"!boogie\" is already a built-in command."
        ),
        _ => panic!("expected a warning"),
    }
    match add_custom_text_command(&parser, &message("kubesbot", "kubesbot"), &args, &context) {
        AddCustomCommandDecision::Store { key, text } => {
            assert_eq!(key.get_value(), "hype");
            assert_eq!(text, "go");
        }
        _ => panic!("expected a store"),
    }
}
