use twitch_chat_bot::irc_chat::channel_chatter_data::{is_admin_or_mod, ChatterData};
use twitch_chat_bot::json::crawler::{crawl_json, try_crawl_json};
use twitch_chat_bot::json::errors::Errors;
use twitch_chat_bot::json::json_value::{JsonObject, JsonPropertyKey, JsonPropertyValue, PropertyType};
use twitch_chat_bot::oauth::ValidationToken;
use twitch_chat_bot::user::UserLogin;

const CHATTERS: &str = r#"{
  "_links": {},
  "chatter_count": 5,
  "chatters": {
    "broadcaster": ["kubesbot"],
    "vips": ["vip1"],
    "moderators": ["mod1", "mod2"],
    "staff": [],
    "admins": [],
    "global_mods": [],
    "viewers": ["anotherttvviewer"]
  }
}"#;

fn names(v: &[UserLogin]) -> Vec<String> {
    v.iter().map(|u| u.get_value()).collect()
}

#[test]
fn crawls_chatters_document() {
    let o = crawl_json(CHATTERS);
    assert_eq!(o.len(), 3);
    assert_eq!(o.get_u32_property_value("chatter_count".to_string()), 5);
    let chatters = o.get_object_property("chatters".to_string());
    assert_eq!(
        chatters.get_string_vector_property_value("moderators".to_string()),
        vec!["mod1".to_string(), "mod2".to_string()]
    );
    assert!(chatters.get_string_vector_property_value("staff".to_string()).is_empty());
    assert!(chatters.has_string_list_property("staff"));
    assert!(!chatters.has_string_property("staff"));
}

#[test]
fn chatter_data_from_json() {
    let d = ChatterData::from_json(crawl_json(CHATTERS));
    assert_eq!(names(&d.get_mods()), vec!["mod1", "mod2"]);
    assert_eq!(names(&d.get_broadcaster()), vec!["kubesbot"]);
    assert_eq!(
        names(&d.get_all_viewers(true, true)),
        vec!["kubesbot", "mod1", "mod2", "vip1", "anotherttvviewer"]
    );
    assert_eq!(names(&d.get_all_viewers(false, false)), vec!["vip1", "anotherttvviewer"]);
    assert_eq!(names(&d.get_all_viewers(false, true)), vec!["mod1", "mod2", "vip1", "anotherttvviewer"]);
}

#[test]
fn admin_or_mod() {
    let mods = vec![UserLogin::new("mod1".to_string())];
    let chan = UserLogin::new("kubesbot".to_string());
    assert!(is_admin_or_mod(&UserLogin::new("kubesbot".to_string()), &chan, &mods));
    assert!(is_admin_or_mod(&UserLogin::new("mod1".to_string()), &chan, &mods));
    assert!(!is_admin_or_mod(&UserLogin::new("viewer".to_string()), &chan, &mods));
}

#[test]
fn crawler_values() {
    let o = crawl_json(r#"  {"s": "text \"quoted\"", "n": null, "b": true, "num": 42, "e": "", "list": ["a", "b"], "objs": [{"x": "1"}, {"x": "2"}], "empty": []} trailing"#);
    assert_eq!(o.get_string_property_value("s".to_string()), "text \"quoted\"");
    assert_eq!(o.find_property("n").unwrap().get_value_type(), PropertyType::Null);
    assert!(o.get_bool_property_value("b".to_string()));
    assert_eq!(o.get_u32_property_value("num".to_string()), 42);
    assert_eq!(o.find_property("e").unwrap().get_value_type(), PropertyType::Null);
    assert_eq!(o.get_string_property_value("e".to_string()), "");
    assert_eq!(o.find_property("list").unwrap().get_value_type(), PropertyType::String_List);
    let objs = o.find_property("objs").unwrap().get_object_vector_value();
    assert_eq!(objs.len(), 2);
    assert_eq!(objs[1].get_string_property_value("x".to_string()), "2");
    assert_eq!(o.find_property("empty").unwrap().get_value_type(), PropertyType::Empty_List);
    assert!(o.find_property("missing").is_none());
    assert_eq!(o.get_nullable_object_property("n".to_string()).is_none(), true);
}

#[test]
fn first_property_of_a_name_wins() {
    let o = crawl_json(r#"{"k": "first", "k": "second"}"#);
    assert_eq!(o.get_string_property_value("k".to_string()), "first");
}

#[test]
fn malformed_documents_are_refused() {
    for doc in ["", "[]", "{", "{\"a\" 1}", "{\"a\": }", "{\"a\": [1, {\"b\": 2}]}", "   x{}"] {
        match try_crawl_json(doc) {
            Err(e) => {
                assert_eq!(e, Errors::JsonParseError);
                assert_eq!(e.to_string(), "JsonParseError");
            }
            Ok(_) => panic!("{:?} should be refused", doc),
        }
    }
    assert!(try_crawl_json("{}").unwrap().len() == 0);
}

#[test]
fn json_object_add_then_find() {
    let mut o = JsonObject::new();
    o.add_property(JsonPropertyKey::new("a".to_string()), JsonPropertyValue::new_with_string("x".to_string()));
    o.add_property(JsonPropertyKey::new("a".to_string()), JsonPropertyValue::new_with_string("y".to_string()));
    o.add_property(JsonPropertyKey::new("b".to_string()), JsonPropertyValue::new_with_empty_list());
    assert_eq!(o.len(), 3);
    assert_eq!(o.find_property("a").unwrap().get_string_value(), "x");
    assert_eq!(o.find_property("b").unwrap().get_value_type(), PropertyType::Empty_List);
    let copy = o.deep_clone();
    assert_eq!(copy.len(), 3);
}

#[test]
fn property_value_constructors() {
    let s = JsonPropertyValue::new_with_string("v".to_string());
    assert_eq!(s.get_value_type(), PropertyType::String);
    assert_eq!(JsonPropertyValue::new_with_string(String::new()).get_value_type(), PropertyType::Null);
    let l = JsonPropertyValue::new_with_string_vector(vec!["a".to_string()]);
    assert_eq!(l.get_string_vector_value(), vec!["a".to_string()]);
    let obj = JsonPropertyValue::new_with_object(JsonObject::new());
    assert_eq!(obj.get_object_value().len(), 0);
    let objs = JsonPropertyValue::new_with_object_vector(vec![JsonObject::new(), JsonObject::new()]);
    assert_eq!(objs.get_object_vector_value().len(), 2);
    assert_eq!(JsonPropertyValue::default().get_value_type(), PropertyType::Null);
    assert_eq!(JsonPropertyKey::new("k".to_string()).get_name(), "k");
}

#[test]
fn validation_token_from_json() {
    let o = crawl_json(r#"{"client_id": "wbmytr93xzw8zbg0p1izqyzzc5mbiz", "login": "kubesbot", "scopes": ["chat:read", "chat:edit"], "user_id": "141981764", "expires_in": 5520838}"#);
    let t = ValidationToken::from_json_at(o, 1_600_000_000);
    assert_eq!(t.client_id.value, "wbmytr93xzw8zbg0p1izqyzzc5mbiz");
    assert_eq!(t.scopes, vec!["chat:read".to_string(), "chat:edit".to_string()]);
    assert_eq!(t.expires_in, 5520838);
    assert_eq!(t.requested_time, 1_600_000_000);
}

#[test]
fn values_compare_field_by_field() {
    let a = crawl_json(r#"{"v": {"x": ["1", "2"], "o": [{"k": "v"}]}}"#);
    let b = crawl_json(r#"{ "v" : { "x" : ["1","2"] , "o" : [ {"k":"v"} ] } }"#);
    let c = crawl_json(r#"{"v": {"x": ["1", "3"], "o": [{"k": "v"}]}}"#);
    assert!(a.find_property("v").unwrap() == b.find_property("v").unwrap());
    assert!(a.find_property("v").unwrap() != c.find_property("v").unwrap());
    assert!(a == b);
    assert!(a != c);
    assert!(JsonPropertyValue::new_with_string("x".to_string()) == JsonPropertyValue::new_with_string("x".to_string()));
    assert!(JsonPropertyValue::new_with_string("x".to_string()) != JsonPropertyValue::new_with_string("y".to_string()));
    assert!(JsonPropertyValue::new_with_empty_list() != JsonPropertyValue::new_with_string(String::new()));
}

#[test]
fn text_after_the_document_is_not_read() {
    let doc = r#"{"a": "1", "b": ["x"]}"#;
    for rest in ["", " trailing words", "}}}", "{\"a\": \"2\"}", "\u{0}"] {
        let with_rest = format!("{}{}", doc, rest);
        let o = crawl_json(with_rest.as_str());
        assert!(o == crawl_json(doc));
        assert_eq!(o.get_string_property_value("a".to_string()), "1");
    }
}

#[test]
fn validation_token_received_now() {
    let doc = r#"{"client_id": "id", "scopes": ["chat:read"], "expires_in": 60}"#;
    let before = std::time::SystemTime::now()
        .duration_since(std::time::UNIX_EPOCH)
        .unwrap()
        .as_secs() as i64;
    let t = ValidationToken::from_json(crawl_json(doc));
    assert!(t.requested_time >= before - 1);
    assert_eq!(t.expires_in, 60);
    assert!(ValidationToken::try_from_json(crawl_json(doc)).is_some());
    assert!(ValidationToken::try_from_json(crawl_json(r#"{"client_id": "id", "scopes": [], "expires_in": 60}"#)).is_none());
    assert!(ValidationToken::try_from_json_at(crawl_json(r#"{"client_id": "id", "scopes": ["a"]}"#), 0).is_none());
}
