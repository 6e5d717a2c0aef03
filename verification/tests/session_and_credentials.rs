use twitch_chat_bot::credentials::access_scopes::{
    get_all_analytics_scopes, get_all_read_scopes, get_all_scopes, get_all_write_scopes,
};
use twitch_chat_bot::credentials::bot_user_credentials::{BotUserCredentials, REDIRECT_URI};
use twitch_chat_bot::credentials::client_id::{ClientId, HEADER_KEY};
use twitch_chat_bot::credentials::client_secret::ClientSecret;
use twitch_chat_bot::irc_chat::session::{
    authentication_lines, contains, is_secret_line, join_chat_channel_line,
    register_received_data, TWITCH_IRC_URL,
};
use twitch_chat_bot::oauth::{OauthToken, Signature, AUTHORIZATION_HEADER_NAME};
use twitch_chat_bot::text::chars_of;
use twitch_chat_bot::user::UserLogin;

#[test]
fn received_data_is_cut_into_lines() {
    let lines = register_received_data(":a PRIVMSG #c :hi\r\nPING :tmi.twitch.tv\r\n");
    assert_eq!(lines, vec![":a PRIVMSG #c :hi".to_string(), "PING :tmi.twitch.tv".to_string()]);
    let lines = register_received_data("one\r\n\r\ntwo\nstill two\rthree");
    assert_eq!(lines, vec!["one".to_string(), "two\nstill two\rthree".to_string()]);
    assert!(register_received_data("").is_empty());
    assert!(register_received_data("\r\n\r\n").is_empty());
    assert_eq!(register_received_data("a\r\r\nb"), vec!["a\r".to_string(), "b".to_string()]);
}

#[test]
fn sign_in_and_join_lines() {
    let token = OauthToken::new(Signature::new("secret".to_string()));
    let (pass, nick) = authentication_lines(&token, &UserLogin::new("kubesbot".to_string()));
    assert_eq!(pass, "PASS oauth:secret");
    assert_eq!(nick, "NICK kubesbot");
    assert_eq!(join_chat_channel_line(&UserLogin::new("kubesbot".to_string())), "JOIN #kubesbot");
    assert_eq!(TWITCH_IRC_URL, "ws://irc-ws.chat.twitch.tv:80");
}

#[test]
fn secret_lines_are_recognised() {
    assert!(is_secret_line("PASS oauth:secret"));
    assert!(is_secret_line("{\"auth_token:\": 1}"));
    assert!(!is_secret_line("NICK kubesbot"));
    assert!(!is_secret_line("PAS"));
    assert!(contains(&chars_of("abcabd"), &chars_of("abd")));
    assert!(contains(&chars_of("abc"), &chars_of("")));
    assert!(!contains(&chars_of("ab"), &chars_of("abc")));
}

#[test]
fn oauth_headers() {
    let s = Signature::new("tok".to_string());
    assert_eq!(s.get_oauth_oauth_header(), "OAuth tok");
    assert_eq!(s.get_oauth_bearer_header(), "Bearer tok");
    assert_eq!(s.get_value(), "tok");
    assert_eq!(s.to_string(), "tok");
    assert_eq!(AUTHORIZATION_HEADER_NAME, "Authorization");
    let t = OauthToken::new(s);
    assert_eq!(t.get_oauth_signature().get_value(), "tok");
}

#[test]
fn header_fitness_of_tokens() {
    assert!(Signature::new("abc123".to_string()).is_valid_header_text());
    assert!(Signature::new("with\ttab and space".to_string()).is_valid_header_text());
    assert!(Signature::new("caf\u{e9}".to_string()).is_valid_header_text());
    assert!(!Signature::new("line\nbreak".to_string()).is_valid_header_text());
    assert!(!Signature::new("del\u{7f}".to_string()).is_valid_header_text());
    assert!(!Signature::new("nul\u{0}".to_string()).is_valid_header_text());
    assert_eq!(Signature::new("caf\u{e9}".to_string()).get_oauth_bearer_header(), "Bearer caf\u{e9}");
}

#[test]
fn client_id_forms() {
    let id = ClientId::new("abc".to_string());
    assert_eq!(id.to_string(), "(Client-ID: abc)");
    let (k, v) = id.get_header_parts();
    assert_eq!(k, HEADER_KEY);
    assert_eq!(k, "Client-ID");
    assert_eq!(v, "abc");
}

#[test]
fn client_secret_equality() {
    let a = ClientSecret::new("s3cret");
    let b = ClientSecret::new("s3cret");
    let c = ClientSecret::new("other");
    assert!(a.equals(b));
    assert!(!a.equals(c));
    assert!(a == b);
    assert!(a != c);
    let creds = BotUserCredentials::new(ClientId::new("id".to_string()), a);
    let _ = creds;
    assert_eq!(REDIRECT_URI, "http://127.0.0.1:7878/");
}

#[test]
fn scope_lists() {
    assert_eq!(get_all_analytics_scopes(), "analytics:read:extensions+analytics:read:games");
    assert_eq!(
        get_all_read_scopes(),
        "bits:read+user:read:broadcast+user:read:email+channel:read:subscriptions+chat:read+whispers:read"
    );
    assert_eq!(
        get_all_write_scopes(),
        "user:edit:broadcast+clips:edit+user:edit+chat:edit+whispers:edit"
    );
    assert_eq!(
        get_all_scopes(),
        format!(
            "{}+{}+{}+channel:moderate",
            get_all_analytics_scopes(),
            get_all_read_scopes(),
            get_all_write_scopes()
        )
    );
}
