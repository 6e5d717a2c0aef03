use twitch_chat_bot::json::json_value::{JsonPropertyKey, JsonPropertyValue};
use twitch_chat_bot::json::reading_object::{ReadableType, ReadingObject};
use twitch_chat_bot::json::scope::{Context, Scope};
use twitch_chat_bot::text::{
    chars_of, collapse_spaces_from, decimal_chars, join_chars, parse_bool_str, parse_u32_chars,
    split_chars, string_of,
};

#[test]
fn split_and_join() {
    let pieces = split_chars(&chars_of("a,,b,"), ',');
    let as_strings: Vec<String> = pieces.iter().map(|p| string_of(p)).collect();
    assert_eq!(as_strings, vec!["a", "", "b", ""]);
    assert_eq!(string_of(&join_chars(&pieces, ',')), "a,,b,");
    assert_eq!(string_of(&collapse_spaces_from(&chars_of("x   a  b "), 1)), "a b ");
}

#[test]
fn numbers_and_booleans() {
    assert_eq!(parse_u32_chars(&chars_of("4294967295")), Some(4294967295));
    assert_eq!(parse_u32_chars(&chars_of("4294967296")), None);
    assert_eq!(parse_u32_chars(&chars_of("")), None);
    assert_eq!(parse_u32_chars(&chars_of("12a")), None);
    assert_eq!(parse_u32_chars(&chars_of("007")), Some(7));
    assert_eq!(parse_bool_str("true"), Some(true));
    assert_eq!(parse_bool_str("false"), Some(false));
    assert_eq!(parse_bool_str("True"), None);
    assert_eq!(string_of(&decimal_chars(0)), "0");
    assert_eq!(string_of(&decimal_chars(1234)), "1234");
    assert_eq!(string_of(&decimal_chars(u32::MAX)), "4294967295");
}

#[test]
fn context_stack() {
    let mut c: Context<ReadingObject> = Context::new();
    assert!(c.is_empty());
    assert!(!c.has_reading_value());
    c.create_nested_reading_value(ReadableType::RootObject, |o: &mut ReadingObject| {
        o.add_property(JsonPropertyKey::new("k".to_string()), JsonPropertyValue::new_with_string("v".to_string()));
    });
    assert!(c.current_value_is_root_value());
    assert_eq!(c.get_current_reading_index(), 0);
    c.create_nested_reading_value(ReadableType::PropertyValueObject, |_o: &mut ReadingObject| {});
    assert_eq!(c.get_current_reading_index(), 1);
    assert!(!c.current_value_is_root_value());
    c.remove_current_value();
    assert!(c.current_value_is_root_value());
    let mut count = 0;
    c.use_current_reading_value(|o: &mut ReadingObject| {
        o.register_ending_curly_brace();
        count = o.built_value().len();
    });
    assert_eq!(count, 1);
    c.remove_current_value();
    assert!(c.is_empty());
}

#[test]
fn scope_characters() {
    let mut s = Scope::new();
    assert_eq!(s.get_current_character(), "");
    s.set_current_character(&"a".to_string());
    s.set_current_character(&"b".to_string());
    assert_eq!(s.get_current_character(), "b");
    assert_eq!(s.get_previous_character(), "a");
    assert_eq!(s.current_context, ReadableType::Nothing);
}

#[test]
fn reading_object_builds_its_object() {
    let mut o = ReadingObject::new();
    o.add_property(JsonPropertyKey::new("a".to_string()), JsonPropertyValue::new_with_string("1".to_string()));
    o.register_ending_curly_brace();
    let built = o.built_value();
    assert_eq!(built.get_string_property_value("a".to_string()), "1");
}

use twitch_chat_bot::json::closing_curly_brace_handler::ClosingCurlyBraceHandler;
use twitch_chat_bot::json::json_value::{JsonObject, PropertyType};
use twitch_chat_bot::json::reading_property::{ReadingPropertyKey, ReadingPropertyValue};

fn push_key(scope: &mut Scope, name: &str) {
    let name = name.to_string();
    scope.reading_json_property_keys.create_nested_reading_value(
        ReadableType::PropertyKey,
        move |k: &mut ReadingPropertyKey| {
            for c in name.chars() {
                k.add_character(c);
            }
            k.register_closing_quotation_mark();
        },
    );
}

fn built_root(scope: &mut Scope) -> JsonObject {
    let mut out = None;
    scope.reading_json_objects.use_current_reading_value(|o: &mut ReadingObject| {
        o.register_ending_curly_brace();
        out = Some(o.built_value());
    });
    out.unwrap()
}

#[test]
fn closing_brace_makes_object_a_property() {
    let mut scope = Scope::new();
    scope.reading_json_objects.create_nested_reading_value(ReadableType::RootObject, |_o: &mut ReadingObject| {});
    push_key(&mut scope, "outer");
    scope.reading_json_objects.create_nested_reading_value(
        ReadableType::PropertyValueObject,
        |o: &mut ReadingObject| {
            o.add_property(JsonPropertyKey::new("x".to_string()), JsonPropertyValue::new_with_string("1".to_string()));
            o.register_ending_curly_brace();
        },
    );
    let mut handler = ClosingCurlyBraceHandler::new();
    handler.register_property_value_object_context(&mut scope);
    assert!(scope.reading_json_property_keys.is_empty());
    assert!(scope.reading_json_property_values.is_empty());
    assert!(scope.reading_json_objects.current_value_is_root_value());
    let root = built_root(&mut scope);
    let inner = root.get_object_property("outer".to_string());
    assert_eq!(inner.get_string_property_value("x".to_string()), "1");
}

#[test]
fn closing_brace_in_list_adds_element() {
    let mut scope = Scope::new();
    scope.reading_json_objects.create_nested_reading_value(ReadableType::RootObject, |_o: &mut ReadingObject| {});
    push_key(&mut scope, "items");
    scope.reading_json_property_values.create_nested_reading_value(
        ReadableType::PropertyValueObjectArray,
        |v: &mut ReadingPropertyValue| *v = ReadingPropertyValue::new(PropertyType::JSON_Object_List),
    );
    for n in ["1", "2"] {
        let n = n.to_string();
        scope.reading_json_objects.create_nested_reading_value(
            ReadableType::PropertyValueObjectArray,
            move |o: &mut ReadingObject| {
                o.add_property(JsonPropertyKey::new("n".to_string()), JsonPropertyValue::new_with_string(n));
                o.register_ending_curly_brace();
            },
        );
        let mut handler = ClosingCurlyBraceHandler::new();
        handler.register_property_value_object_array_context(&mut scope);
    }
    scope.add_current_property_to_current_object();
    let root = built_root(&mut scope);
    let items = root.find_property("items").unwrap().get_object_vector_value();
    assert_eq!(items.len(), 2);
    assert_eq!(items[1].get_string_property_value("n".to_string()), "2");
}

#[test]
fn strings_are_added_to_the_list() {
    let mut scope = Scope::new();
    scope.reading_json_objects.create_nested_reading_value(ReadableType::RootObject, |_o: &mut ReadingObject| {});
    push_key(&mut scope, "names");
    scope.reading_json_property_values.create_nested_reading_value(
        ReadableType::PropertyValueStringArray,
        |v: &mut ReadingPropertyValue| *v = ReadingPropertyValue::new(PropertyType::String_List),
    );
    for name in ["ann", "bo"] {
        let name = name.to_string();
        scope.reading_json_property_values.create_nested_reading_value(
            ReadableType::PropertyValueString,
            move |v: &mut ReadingPropertyValue| {
                *v = ReadingPropertyValue::new(PropertyType::String);
                for c in name.chars() {
                    v.add_character(c);
                }
            },
        );
        scope.add_current_property_to_current_list();
        scope.reading_json_property_values.remove_current_value();
    }
    let mut seen = 0;
    scope.use_current_reading_property_list(PropertyType::String_List, |l: &mut ReadingPropertyValue| {
        seen = l.built_value().get_string_vector_value().len();
    });
    assert_eq!(seen, 2);
    scope.add_current_property_to_current_object();
    let root = built_root(&mut scope);
    assert_eq!(
        root.get_string_vector_property_value("names".to_string()),
        vec!["ann".to_string(), "bo".to_string()]
    );
}

#[test]
fn reading_property_value_kinds() {
    let mut v = ReadingPropertyValue::new(PropertyType::String);
    assert_eq!(v.get_value_type(), PropertyType::String);
    assert_eq!(v.built_value().get_value_type(), PropertyType::Null);
    v.add_character('a');
    assert_eq!(v.built_value().get_string_value(), "a");
    let mut l = ReadingPropertyValue::new(PropertyType::String_List);
    assert_eq!(l.built_value().get_value_type(), PropertyType::Empty_List);
    let mut o = ReadingPropertyValue::new(PropertyType::JSON_Object);
    let mut obj = JsonObject::new();
    obj.add_property(JsonPropertyKey::new("k".to_string()), JsonPropertyValue::new_with_string("v".to_string()));
    o.set_object(obj);
    assert_eq!(o.built_value().get_object_value().len(), 1);
    let mut k = ReadingPropertyKey::new();
    k.add_character('i');
    k.add_character('d');
    assert_eq!(k.built_value().get_name(), "id");
}

#[test]
fn a_value_of_no_kind_is_added_as_invalid() {
    let mut v = ReadingPropertyValue::default();
    assert_eq!(v.built_value().get_value_type(), PropertyType::Invalid);
    let mut scope = Scope::new();
    scope.reading_json_objects.create_nested_reading_value(ReadableType::RootObject, |_o: &mut ReadingObject| {});
    push_key(&mut scope, "k");
    scope.reading_json_property_values.create_nested_reading_value(ReadableType::PropertyValueString, |_v: &mut ReadingPropertyValue| {});
    scope.add_current_property_to_current_object();
    let root = built_root(&mut scope);
    assert_eq!(root.find_property("k").unwrap().get_value_type(), PropertyType::Invalid);
}
