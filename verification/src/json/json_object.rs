use crate::json::json_value::{lookup, JsonObject, JsonValue};
use crate::text::{chars_of, parse_u32, parse_u32_chars};
use vstd::prelude::*;

verus! {

/// The property `key` of `o` holds a string (or null).
pub open spec fn has_string_property(o: Seq<(Seq<char>, JsonValue)>, key: Seq<char>) -> bool {
    lookup(o, key) matches Some(v) && (v is Str || v is Null)
}

/// The property `key` of `o` holds the decimal text of a `u32`.
pub open spec fn has_u32_property(o: Seq<(Seq<char>, JsonValue)>, key: Seq<char>) -> bool {
    lookup(o, key) matches Some(JsonValue::Str(t)) && parse_u32(t) is Some
}

/// The `u32` that the property `key` of `o` writes.
pub open spec fn u32_property(o: Seq<(Seq<char>, JsonValue)>, key: Seq<char>) -> u32 {
    match lookup(o, key) {
        Some(JsonValue::Str(t)) => parse_u32(t).unwrap(),
        _ => 0,
    }
}

/// The property `key` of `o` holds an object.
pub open spec fn has_object_property(o: Seq<(Seq<char>, JsonValue)>, key: Seq<char>) -> bool {
    lookup(o, key) matches Some(JsonValue::Object(_))
}

/// The object that the property `key` of `o` holds.
pub open spec fn object_property(o: Seq<(Seq<char>, JsonValue)>, key: Seq<char>) -> Seq<(Seq<char>, JsonValue)> {
    match lookup(o, key) {
        Some(JsonValue::Object(p)) => p,
        _ => Seq::empty(),
    }
}

/// The strings that the property `key` of `o` holds: a list of strings or
/// the empty list.
pub open spec fn has_string_list_property(o: Seq<(Seq<char>, JsonValue)>, key: Seq<char>) -> bool {
    lookup(o, key) matches Some(v) && (v is StrList || v is EmptyList)
}

/// The strings of the property `key` of `o`.
pub open spec fn string_list_property(o: Seq<(Seq<char>, JsonValue)>, key: Seq<char>) -> Seq<Seq<char>> {
    match lookup(o, key) {
        Some(JsonValue::StrList(l)) => l,
        _ => Seq::empty(),
    }
}

/// The text of the property `key` of `o` (null reads as empty).
pub open spec fn string_property(o: Seq<(Seq<char>, JsonValue)>, key: Seq<char>) -> Seq<char> {
    match lookup(o, key) {
        Some(JsonValue::Str(t)) => t,
        _ => Seq::empty(),
    }
}

impl JsonObject {
    /// The text of the property `key` (a null property reads as empty).
    pub fn get_string_property_value(&self, key: String) -> (s: String)
        requires
            has_string_property(self@, key@),
        ensures
            s@ == string_property(self@, key@),
    {
        match self.find_property(key.as_str()) {
            Some(v) => v.get_string_value(),
            None => String::new(),
        }
    }

    /// The `u32` that the property `key` writes in decimal.
    pub fn get_u32_property_value(&self, key: String) -> (n: u32)
        requires
            has_u32_property(self@, key@),
        ensures
            n == u32_property(self@, key@),
    {
        match self.find_property(key.as_str()) {
            Some(v) => {
                let text = v.get_string_value();
                match parse_u32_chars(&chars_of(text.as_str())) {
                    Some(n) => n,
                    None => 0,
                }
            },
            None => 0,
        }
    }

    /// The object that the property `key` holds.
    pub fn get_object_property(&self, key: String) -> (o: JsonObject)
        requires
            has_object_property(self@, key@),
        ensures
            o@ == object_property(self@, key@),
    {
        match self.find_property(key.as_str()) {
            Some(v) => v.get_object_value(),
            None => JsonObject::new(),
        }
    }

    /// The object that the property `key` holds, or `None` where it is null.
    pub fn get_nullable_object_property(&self, key: String) -> (o: Option<JsonObject>)
        requires
            lookup(self@, key@) matches Some(v) && (v is Object || v is Null),
        ensures
            match o {
                Some(obj) => lookup(self@, key@) == Some(JsonValue::Object(obj@)),
                None => lookup(self@, key@) == Some(JsonValue::Null),
            },
    {
        match self.find_property(key.as_str()) {
            Some(v) => {
                if v.get_value_type() == crate::json::json_value::PropertyType::Null {
                    None
                } else {
                    Some(v.get_object_value())
                }
            },
            None => None,
        }
    }

    /// The strings that the property `key` holds (none for the empty list).
    pub fn get_string_vector_property_value(&self, key: String) -> (ss: Vec<String>)
        requires
            has_string_list_property(self@, key@),
        ensures
            ss.deep_view() == string_list_property(self@, key@),
    {
        match self.find_property(key.as_str()) {
            Some(v) => {
                if v.get_value_type() == crate::json::json_value::PropertyType::Empty_List {
                    let empty: Vec<String> = Vec::new();
                    assert(empty.deep_view() =~= Seq::<Seq<char>>::empty());
                    empty
                } else {
                    v.get_string_vector_value()
                }
            },
            None => Vec::new(),
        }
    }

    /// The strings of the property `key`, which must be a non-empty list.
    pub fn get_non_empty_string_vector_property_value(&self, key: String) -> (ss: Vec<String>)
        requires
            lookup(self@, key@) matches Some(JsonValue::StrList(_)),
        ensures
            ss.deep_view() == string_list_property(self@, key@),
    {
        match self.find_property(key.as_str()) {
            Some(v) => v.get_string_vector_value(),
            None => Vec::new(),
        }
    }
}

} // verus!

verus! {

/// The property `key` of `o` holds `true` or `false` as its text.
pub open spec fn has_bool_property(o: Seq<(Seq<char>, JsonValue)>, key: Seq<char>) -> bool {
    has_string_property(o, key) && crate::text::parse_bool(string_property(o, key)) is Some
}

/// The truth value that the property `key` of `o` writes.
pub open spec fn bool_property(o: Seq<(Seq<char>, JsonValue)>, key: Seq<char>) -> bool {
    crate::text::parse_bool(string_property(o, key)) == Some(true)
}

impl JsonObject {
    /// Whether the property `key` holds a string (or null).
    pub fn has_string_property(&self, key: &str) -> (r: bool)
        ensures
            r == has_string_property(self@, key@),
    {
        match self.find_property(key) {
            Some(v) => {
                let t = v.get_value_type();
                t == crate::json::json_value::PropertyType::String
                    || t == crate::json::json_value::PropertyType::Null
            },
            None => false,
        }
    }

    /// Whether the property `key` holds the decimal text of a `u32`.
    pub fn has_u32_property(&self, key: &str) -> (r: bool)
        ensures
            r == has_u32_property(self@, key@),
    {
        match self.find_property(key) {
            Some(v) => {
                if v.get_value_type() == crate::json::json_value::PropertyType::String {
                    let text = v.get_string_value();
                    parse_u32_chars(&chars_of(text.as_str())).is_some()
                } else {
                    false
                }
            },
            None => false,
        }
    }

    /// Whether the property `key` holds an object.
    pub fn has_object_property(&self, key: &str) -> (r: bool)
        ensures
            r == has_object_property(self@, key@),
    {
        match self.find_property(key) {
            Some(v) => v.get_value_type() == crate::json::json_value::PropertyType::JSON_Object,
            None => false,
        }
    }

    /// Whether the property `key` holds a list of strings (or the empty
    /// list).
    pub fn has_string_list_property(&self, key: &str) -> (r: bool)
        ensures
            r == has_string_list_property(self@, key@),
    {
        match self.find_property(key) {
            Some(v) => {
                let t = v.get_value_type();
                t == crate::json::json_value::PropertyType::String_List
                    || t == crate::json::json_value::PropertyType::Empty_List
            },
            None => false,
        }
    }

    /// Whether the property `key` holds `true` or `false` as its text.
    pub fn has_bool_property(&self, key: &str) -> (r: bool)
        ensures
            r == has_bool_property(self@, key@),
    {
        if !self.has_string_property(key) {
            return false;
        }
        let text = self.get_string_property_value(String::from_str(key));
        crate::text::parse_bool_str(text.as_str()).is_some()
    }

    /// The truth value that the property `key` writes.
    pub fn get_bool_property_value(&self, key: String) -> (b: bool)
        requires
            has_bool_property(self@, key@),
        ensures
            b == bool_property(self@, key@),
    {
        let text = self.get_string_property_value(key);
        match crate::text::parse_bool_str(text.as_str()) {
            Some(b) => b,
            None => false,
        }
    }
}

} // verus!
