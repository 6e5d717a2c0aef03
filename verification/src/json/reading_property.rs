use crate::json::json_value::{
    clone_objects, clone_strings, lemma_objects_view, string_json_value, JsonObject,
    JsonPropertyKey, JsonPropertyValue, JsonValue, PropertyType,
};
use crate::json::reading_object::{IReadingObjectBase, ReadableType};
use crate::text::push_char;
use vstd::prelude::*;

verus! {

/// A property name that is being read: its characters so far, and whether
/// its closing quotation mark has been met.
pub struct ReadingPropertyKey {
    name: String,
    closing_quotation_mark_registered: bool,
    previous_crawler_context: ReadableType,
}

impl ReadingPropertyKey {
    pub closed spec fn spec_name(&self) -> Seq<char> {
        self.name@
    }

    pub closed spec fn spec_finalized(&self) -> bool {
        self.closing_quotation_mark_registered
    }

    pub closed spec fn spec_previous_context(&self) -> ReadableType {
        self.previous_crawler_context
    }

    /// A name without characters, whose closing quotation mark is still to
    /// come.
    pub fn new() -> (k: ReadingPropertyKey)
        ensures
            k.spec_name() == Seq::<char>::empty(),
            !k.spec_finalized(),
            k.spec_previous_context() == ReadableType::Nothing,
    {
        ReadingPropertyKey {
            name: String::new(),
            closing_quotation_mark_registered: false,
            previous_crawler_context: ReadableType::Nothing,
        }
    }

    /// Adds a character to the name.
    pub fn add_character(&mut self, c: char)
        ensures
            final(self).spec_name() == old(self).spec_name().push(c),
            final(self).spec_finalized() == old(self).spec_finalized(),
            final(self).spec_previous_context() == old(self).spec_previous_context(),
    {
        push_char(&mut self.name, c);
    }

    /// Notes the closing quotation mark; it may be met only once.
    pub fn register_closing_quotation_mark(&mut self)
        requires
            !old(self).spec_finalized(),
        ensures
            final(self).spec_finalized(),
            final(self).spec_name() == old(self).spec_name(),
            final(self).spec_previous_context() == old(self).spec_previous_context(),
    {
        self.closing_quotation_mark_registered = true;
    }

    /// The name read.
    pub fn built_value(&mut self) -> (key: JsonPropertyKey)
        ensures
            key@ == old(self).spec_name(),
            *final(self) == *old(self),
    {
        JsonPropertyKey::new(self.name.clone())
    }
}

impl IReadingObjectBase for ReadingPropertyKey {
    open spec fn spec_previous_crawler_context(&self) -> ReadableType {
        self.spec_previous_context()
    }

    closed spec fn spec_with_previous_crawler_context(&self, previous: ReadableType) -> Self {
        ReadingPropertyKey { previous_crawler_context: previous, ..*self }
    }

    /// Whether the closing quotation mark has been met.
    fn is_finalized(&self) -> (r: bool)
        ensures
            r == self.spec_finalized(),
    {
        self.closing_quotation_mark_registered
    }

    fn get_previous_crawler_context(&self) -> (r: ReadableType) {
        self.previous_crawler_context
    }

    fn set_previous_crawler_context(&mut self, new_type: ReadableType)
        ensures
            final(self).spec_name() == old(self).spec_name(),
            final(self).spec_finalized() == old(self).spec_finalized(),
    {
        self.previous_crawler_context = new_type;
    }
}

impl std::default::Default for ReadingPropertyKey {
    fn default() -> (k: Self)
        ensures
            k.spec_name() == Seq::<char>::empty(),
            !k.spec_finalized(),
            k.spec_previous_context() == ReadableType::Nothing,
    {
        ReadingPropertyKey::new()
    }
}

/// A property value that is being read: what kind of value it is, and what
/// has been read of it so far.
pub struct ReadingPropertyValue {
    value_type: PropertyType,
    text: String,
    strings: Vec<String>,
    object: JsonObject,
    objects: Vec<JsonObject>,
    ending_registered: bool,
    previous_crawler_context: ReadableType,
}

impl ReadingPropertyValue {
    /// What kind of value it is.
    pub closed spec fn spec_kind(&self) -> PropertyType {
        self.value_type
    }

    /// The characters of a string value read so far.
    pub closed spec fn spec_text(&self) -> Seq<char> {
        self.text@
    }

    /// The elements of a list of strings read so far.
    pub closed spec fn spec_strings(&self) -> Seq<Seq<char>> {
        self.strings.deep_view()
    }

    /// The object of an object value.
    pub closed spec fn spec_object(&self) -> Seq<(Seq<char>, JsonValue)> {
        self.object@
    }

    /// The elements of a list of objects read so far.
    pub closed spec fn spec_objects(&self) -> Seq<Seq<(Seq<char>, JsonValue)>> {
        self.objects@.map_values(|o: JsonObject| o@)
    }

    pub closed spec fn spec_previous_context(&self) -> ReadableType {
        self.previous_crawler_context
    }

    /// Whether the end of the value (its closing quotation mark or bracket)
    /// has been met.
    pub closed spec fn spec_finalized(&self) -> bool {
        self.ending_registered
    }

    /// The value that what has been read so far makes: an empty string is
    /// null, and a list without elements is the empty list.
    pub open spec fn spec_value(&self) -> JsonValue {
        match self.spec_kind() {
            PropertyType::Invalid => JsonValue::Invalid,
            PropertyType::String => string_json_value(self.spec_text()),
            PropertyType::String_List => if self.spec_strings().len() == 0 {
                JsonValue::EmptyList
            } else {
                JsonValue::StrList(self.spec_strings())
            },
            PropertyType::JSON_Object => JsonValue::Object(self.spec_object()),
            PropertyType::JSON_Object_List => if self.spec_objects().len() == 0 {
                JsonValue::EmptyList
            } else {
                JsonValue::ObjectList(self.spec_objects())
            },
            PropertyType::Empty_List => JsonValue::EmptyList,
            PropertyType::Null => JsonValue::Null,
        }
    }

    /// A value of kind `value_type` of which nothing has been read yet.
    pub fn new(value_type: PropertyType) -> (v: ReadingPropertyValue)
        ensures
            v.spec_kind() == value_type,
            v.spec_text() == Seq::<char>::empty(),
            v.spec_strings() == Seq::<Seq<char>>::empty(),
            v.spec_object() == Seq::<(Seq<char>, JsonValue)>::empty(),
            v.spec_objects() == Seq::<Seq<(Seq<char>, JsonValue)>>::empty(),
            !v.spec_finalized(),
            v.spec_previous_context() == ReadableType::Nothing,
    {
        let v = ReadingPropertyValue {
            value_type,
            text: String::new(),
            strings: Vec::new(),
            object: JsonObject::new(),
            objects: Vec::new(),
            ending_registered: false,
            previous_crawler_context: ReadableType::Nothing,
        };
        assert(v.spec_strings() =~= Seq::<Seq<char>>::empty());
        assert(v.spec_objects() =~= Seq::<Seq<(Seq<char>, JsonValue)>>::empty());
        v
    }

    /// What kind of value it is.
    pub fn get_value_type(&self) -> (t: PropertyType)
        ensures
            t == self.spec_kind(),
    {
        self.value_type
    }

    /// Adds a character to a string value.
    pub fn add_character(&mut self, c: char)
        ensures
            final(self).spec_text() == old(self).spec_text().push(c),
            final(self).spec_kind() == old(self).spec_kind(),
            final(self).spec_strings() == old(self).spec_strings(),
            final(self).spec_object() == old(self).spec_object(),
            final(self).spec_objects() == old(self).spec_objects(),
            final(self).spec_previous_context() == old(self).spec_previous_context(),
            final(self).spec_finalized() == old(self).spec_finalized(),
    {
        push_char(&mut self.text, c);
    }

    /// Sets the object of an object value.
    pub fn set_object(&mut self, new_object: JsonObject)
        ensures
            final(self).spec_object() == new_object@,
            final(self).spec_kind() == old(self).spec_kind(),
            final(self).spec_text() == old(self).spec_text(),
            final(self).spec_strings() == old(self).spec_strings(),
            final(self).spec_objects() == old(self).spec_objects(),
            final(self).spec_previous_context() == old(self).spec_previous_context(),
            final(self).spec_finalized() == old(self).spec_finalized(),
    {
        self.object = new_object;
    }

    /// Adds an element to a list: a string to a list of strings, an object
    /// to a list of objects.
    pub fn add_list_element(&mut self, element: JsonPropertyValue)
        requires
            (old(self).spec_kind() == PropertyType::String_List && element@ is Str) || (
            old(self).spec_kind() == PropertyType::JSON_Object_List && element@ is Object),
        ensures
            final(self).spec_kind() == old(self).spec_kind(),
            final(self).spec_text() == old(self).spec_text(),
            final(self).spec_object() == old(self).spec_object(),
            final(self).spec_previous_context() == old(self).spec_previous_context(),
            final(self).spec_finalized() == old(self).spec_finalized(),
            element@ matches JsonValue::Str(t) ==> final(self).spec_strings() == old(
                self,
            ).spec_strings().push(t) && final(self).spec_objects() == old(self).spec_objects(),
            element@ matches JsonValue::Object(o) ==> final(self).spec_objects() == old(
                self,
            ).spec_objects().push(o) && final(self).spec_strings() == old(self).spec_strings(),
    {
        if self.value_type == PropertyType::String_List {
            let s = element.get_string_value();
            let ghost before = self.strings.deep_view();
            let ghost t = s@;
            self.strings.push(s);
            assert(self.strings.deep_view() =~= before.push(t));
        } else {
            let o = element.get_object_value();
            let ghost before = self.objects@;
            let ghost ov = o@;
            self.objects.push(o);
            assert(self.objects@ =~= before.push(o));
            assert(self.objects@.map_values(|x: JsonObject| x@) =~= before.map_values(
                |x: JsonObject| x@,
            ).push(ov));
        }
    }

    /// Notes the end of the value; it may be met only once.
    pub fn register_ending(&mut self)
        requires
            !old(self).spec_finalized(),
        ensures
            final(self).spec_finalized(),
            final(self).spec_kind() == old(self).spec_kind(),
            final(self).spec_text() == old(self).spec_text(),
            final(self).spec_strings() == old(self).spec_strings(),
            final(self).spec_object() == old(self).spec_object(),
            final(self).spec_objects() == old(self).spec_objects(),
            final(self).spec_previous_context() == old(self).spec_previous_context(),
    {
        self.ending_registered = true;
    }

    /// The value read so far.
    pub fn built_value(&mut self) -> (v: JsonPropertyValue)
        ensures
            v@ == old(self).spec_value(),
            *final(self) == *old(self),
    {
        match self.value_type {
            PropertyType::String => JsonPropertyValue::new_with_string(self.text.clone()),
            PropertyType::String_List => {
                if self.strings.len() == 0 {
                    JsonPropertyValue::new_with_empty_list()
                } else {
                    JsonPropertyValue::new_with_string_vector(clone_strings(&self.strings))
                }
            },
            PropertyType::JSON_Object => JsonPropertyValue::new_with_object(self.object.deep_clone()),
            PropertyType::JSON_Object_List => {
                if self.objects.len() == 0 {
                    JsonPropertyValue::new_with_empty_list()
                } else {
                    JsonPropertyValue::new_with_object_vector(clone_objects(&self.objects))
                }
            },
            PropertyType::Empty_List => JsonPropertyValue::new_with_empty_list(),
            PropertyType::Null => JsonPropertyValue::new_with_string(String::new()),
            PropertyType::Invalid => JsonPropertyValue::new_invalid(),
        }
    }
}

impl IReadingObjectBase for ReadingPropertyValue {
    open spec fn spec_previous_crawler_context(&self) -> ReadableType {
        self.spec_previous_context()
    }

    closed spec fn spec_with_previous_crawler_context(&self, previous: ReadableType) -> Self {
        ReadingPropertyValue { previous_crawler_context: previous, ..*self }
    }

    /// Whether the end of the value has been met.
    fn is_finalized(&self) -> (r: bool)
        ensures
            r == self.spec_finalized(),
    {
        self.ending_registered
    }

    fn get_previous_crawler_context(&self) -> (r: ReadableType) {
        self.previous_crawler_context
    }

    fn set_previous_crawler_context(&mut self, new_type: ReadableType)
        ensures
            final(self).spec_kind() == old(self).spec_kind(),
            final(self).spec_text() == old(self).spec_text(),
            final(self).spec_strings() == old(self).spec_strings(),
            final(self).spec_object() == old(self).spec_object(),
            final(self).spec_objects() == old(self).spec_objects(),
            final(self).spec_finalized() == old(self).spec_finalized(),
    {
        self.previous_crawler_context = new_type;
    }
}

impl std::default::Default for ReadingPropertyValue {
    fn default() -> (v: Self)
        ensures
            v.spec_kind() == PropertyType::Invalid,
            v.spec_text() == Seq::<char>::empty(),
            v.spec_strings() == Seq::<Seq<char>>::empty(),
            v.spec_object() == Seq::<(Seq<char>, JsonValue)>::empty(),
            v.spec_objects() == Seq::<Seq<(Seq<char>, JsonValue)>>::empty(),
            !v.spec_finalized(),
            v.spec_previous_context() == ReadableType::Nothing,
    {
        ReadingPropertyValue::new(PropertyType::Invalid)
    }
}

} // verus!
