use vstd::prelude::*;

verus! {

/// What a property holds.
#[allow(non_camel_case_types)]
#[derive(Copy, Clone, PartialEq, Eq, Structural, Debug)]
pub enum PropertyType {
    Invalid,
    String,
    String_List,
    JSON_Object,
    JSON_Object_List,
    Empty_List,
    Null,
}

/// A JSON value, as plain values.
pub enum JsonValue {
    Invalid,
    Str(Seq<char>),
    StrList(Seq<Seq<char>>),
    Object(Seq<(Seq<char>, JsonValue)>),
    ObjectList(Seq<Seq<(Seq<char>, JsonValue)>>),
    EmptyList,
    Null,
}

/// The name of a property.
pub struct JsonPropertyKey {
    name: String,
}

impl View for JsonPropertyKey {
    type V = Seq<char>;

    open spec fn view(&self) -> Seq<char> {
        self.spec_name()
    }
}

impl JsonPropertyKey {
    pub closed spec fn spec_name(&self) -> Seq<char> {
        self.name@
    }

    pub fn new(name: String) -> (key: JsonPropertyKey)
        ensures
            key@ == name@,
    {
        JsonPropertyKey { name }
    }

    pub fn get_name(&self) -> (name: String)
        ensures
            name@ == self@,
    {
        self.name.clone()
    }
}

/// One property of an object: its name and its value.
pub struct JsonProperty {
    pub key: JsonPropertyKey,
    pub value: JsonPropertyValue,
}

/// A JSON object: its properties, in the order they were read.
pub struct JsonObject {
    properties: Vec<JsonProperty>,
}

/// The value of a property.
pub struct JsonPropertyValue {
    string_value: String,
    string_array_value: Vec<String>,
    json_object_value: JsonObject,
    json_object_array_value: Vec<JsonObject>,
    pub value_type: PropertyType,
}

pub closed spec fn properties_view(props: Seq<JsonProperty>) -> Seq<(Seq<char>, JsonValue)>
    decreases props,
{
    if props.len() == 0 {
        Seq::empty()
    } else {
        properties_view(props.drop_last()).push((props.last().key@, value_view(props.last().value)))
    }
}

pub closed spec fn object_view(o: JsonObject) -> Seq<(Seq<char>, JsonValue)>
    decreases o,
{
    properties_view(o.properties@)
}

pub closed spec fn objects_view(os: Seq<JsonObject>) -> Seq<Seq<(Seq<char>, JsonValue)>>
    decreases os,
{
    if os.len() == 0 {
        Seq::empty()
    } else {
        objects_view(os.drop_last()).push(object_view(os.last()))
    }
}

pub closed spec fn value_view(v: JsonPropertyValue) -> JsonValue
    decreases v,
{
    match v.value_type {
        PropertyType::Invalid => JsonValue::Invalid,
        PropertyType::String => JsonValue::Str(v.string_value@),
        PropertyType::String_List => JsonValue::StrList(v.string_array_value.deep_view()),
        PropertyType::JSON_Object => JsonValue::Object(object_view(v.json_object_value)),
        PropertyType::JSON_Object_List => JsonValue::ObjectList(objects_view(v.json_object_array_value@)),
        PropertyType::Empty_List => JsonValue::EmptyList,
        PropertyType::Null => JsonValue::Null,
    }
}

} // verus!

verus! {

pub proof fn lemma_objects_view(os: Seq<JsonObject>)
    ensures
        objects_view(os) == os.map_values(|o: JsonObject| o@),
    decreases os.len(),
{
    if os.len() > 0 {
        lemma_objects_view(os.drop_last());
        assert(objects_view(os) =~= os.map_values(|o: JsonObject| o@));
    } else {
        assert(objects_view(os) =~= os.map_values(|o: JsonObject| o@));
    }
}

impl View for JsonObject {
    type V = Seq<(Seq<char>, JsonValue)>;

    open spec fn view(&self) -> Seq<(Seq<char>, JsonValue)> {
        object_view(*self)
    }
}

impl View for JsonPropertyValue {
    type V = JsonValue;

    open spec fn view(&self) -> JsonValue {
        value_view(*self)
    }
}

/// The value of the first property named `name`.
pub open spec fn lookup(props: Seq<(Seq<char>, JsonValue)>, name: Seq<char>) -> Option<JsonValue>
    decreases props.len(),
{
    if props.len() == 0 {
        None
    } else if props[0].0 == name {
        Some(props[0].1)
    } else {
        lookup(props.drop_first(), name)
    }
}

/// What kind of value `v` is.
pub open spec fn type_of(v: JsonValue) -> PropertyType {
    match v {
        JsonValue::Invalid => PropertyType::Invalid,
        JsonValue::Str(_) => PropertyType::String,
        JsonValue::StrList(_) => PropertyType::String_List,
        JsonValue::Object(_) => PropertyType::JSON_Object,
        JsonValue::ObjectList(_) => PropertyType::JSON_Object_List,
        JsonValue::EmptyList => PropertyType::Empty_List,
        JsonValue::Null => PropertyType::Null,
    }
}

/// The value of a property read from `text`: empty text is null.
pub open spec fn string_json_value(text: Seq<char>) -> JsonValue {
    if text.len() == 0 {
        JsonValue::Null
    } else {
        JsonValue::Str(text)
    }
}

impl JsonPropertyValue {
    /// A string value; the empty string is null.
    pub fn new_with_string(new_value: String) -> (value: JsonPropertyValue)
        ensures
            value@ == string_json_value(new_value@),
    {
        let new_value_type = if new_value.unicode_len() == 0 {
            PropertyType::Null
        } else {
            PropertyType::String
        };
        JsonPropertyValue {
            string_value: new_value,
            string_array_value: Vec::new(),
            json_object_value: JsonObject::new(),
            json_object_array_value: Vec::new(),
            value_type: new_value_type,
        }
    }

    /// A non-empty list of strings.
    pub fn new_with_string_vector(new_value: Vec<String>) -> (value: JsonPropertyValue)
        requires
            new_value.len() > 0,
        ensures
            value@ == JsonValue::StrList(new_value.deep_view()),
    {
        JsonPropertyValue {
            string_value: String::new(),
            string_array_value: new_value,
            json_object_value: JsonObject::new(),
            json_object_array_value: Vec::new(),
            value_type: PropertyType::String_List,
        }
    }

    /// An object.
    pub fn new_with_object(new_value: JsonObject) -> (value: JsonPropertyValue)
        ensures
            value@ == JsonValue::Object(new_value@),
    {
        JsonPropertyValue {
            string_value: String::new(),
            string_array_value: Vec::new(),
            json_object_value: new_value,
            json_object_array_value: Vec::new(),
            value_type: PropertyType::JSON_Object,
        }
    }

    /// A list of objects.
    pub fn new_with_object_vector(new_value: Vec<JsonObject>) -> (value: JsonPropertyValue)
        ensures
            value@ == JsonValue::ObjectList(new_value@.map_values(|o: JsonObject| o@)),
    {
        proof {
            lemma_objects_view(new_value@);
        }
        JsonPropertyValue {
            string_value: String::new(),
            string_array_value: Vec::new(),
            json_object_value: JsonObject::new(),
            json_object_array_value: new_value,
            value_type: PropertyType::JSON_Object_List,
        }
    }

    /// A value of no valid kind.
    pub(crate) fn new_invalid() -> (value: JsonPropertyValue)
        ensures
            value@ == JsonValue::Invalid,
    {
        JsonPropertyValue {
            string_value: String::new(),
            string_array_value: Vec::new(),
            json_object_value: JsonObject::new(),
            json_object_array_value: Vec::new(),
            value_type: PropertyType::Invalid,
        }
    }

    /// The empty list.
    pub fn new_with_empty_list() -> (value: JsonPropertyValue)
        ensures
            value@ == JsonValue::EmptyList,
    {
        JsonPropertyValue {
            string_value: String::new(),
            string_array_value: Vec::new(),
            json_object_value: JsonObject::new(),
            json_object_array_value: Vec::new(),
            value_type: PropertyType::Empty_List,
        }
    }

    /// What the value holds.
    pub fn get_value_type(&self) -> (t: PropertyType)
        ensures
            t == type_of(self@),
    {
        self.value_type
    }

    /// The string a string value holds; null reads as the empty string.
    pub fn get_string_value(&self) -> (s: String)
        requires
            self@ is Str || self@ is Null,
        ensures
            self@ matches JsonValue::Str(t) ==> s@ == t,
            self@ is Null ==> s@ == Seq::<char>::empty(),
    {
        if self.value_type == PropertyType::String {
            self.string_value.clone()
        } else {
            String::new()
        }
    }

    /// The object an object value holds.
    pub fn get_object_value(&self) -> (o: JsonObject)
        requires
            self@ is Object,
        ensures
            self@ == JsonValue::Object(o@),
    {
        self.json_object_value.deep_clone()
    }

    /// The objects a list of objects holds.
    pub fn get_object_vector_value(&self) -> (os: Vec<JsonObject>)
        requires
            self@ is ObjectList,
        ensures
            self@ == JsonValue::ObjectList(os@.map_values(|o: JsonObject| o@)),
    {
        let os = clone_objects(&self.json_object_array_value);
        proof {
            lemma_objects_view(os@);
            lemma_objects_view(self.json_object_array_value@);
        }
        os
    }

    /// The strings a list of strings holds.
    pub fn get_string_vector_value(&self) -> (ss: Vec<String>)
        requires
            self@ is StrList,
        ensures
            self@ == JsonValue::StrList(ss.deep_view()),
    {
        clone_strings(&self.string_array_value)
    }

    /// A copy of the value.
    pub fn deep_clone(&self) -> (r: JsonPropertyValue)
        ensures
            r@ == self@,
        decreases self,
    {
        let strings = clone_strings(&self.string_array_value);
        let object = self.json_object_value.deep_clone();
        let objects = clone_objects(&self.json_object_array_value);
        proof {
            lemma_objects_view(objects@);
            lemma_objects_view(self.json_object_array_value@);
        }
        JsonPropertyValue {
            string_value: self.string_value.clone(),
            string_array_value: strings,
            json_object_value: object,
            json_object_array_value: objects,
            value_type: self.value_type,
        }
    }
}

impl std::default::Default for JsonPropertyValue {
    fn default() -> (value: Self)
        ensures
            value@ == JsonValue::Null,
    {
        JsonPropertyValue::new_with_string(String::new())
    }
}

/// A copy of a list of strings.
pub fn clone_strings(v: &Vec<String>) -> (r: Vec<String>)
    ensures
        r.deep_view() == v.deep_view(),
{
    let mut r: Vec<String> = Vec::new();
    let mut i: usize = 0;
    while i < v.len()
        invariant
            i <= v.len(),
            r.deep_view() == v.deep_view().take(i as int),
        decreases v.len() - i,
    {
        let ghost before = r.deep_view();
        let s = v[i].clone();
        r.push(s);
        assert(r.deep_view() =~= before.push(v[i as int]@));
        i = i + 1;
        assert(r.deep_view() =~= v.deep_view().take(i as int));
    }
    assert(v.deep_view().take(i as int) =~= v.deep_view());
    r
}

/// A copy of a list of objects.
pub fn clone_objects(v: &Vec<JsonObject>) -> (r: Vec<JsonObject>)
    ensures
        r@.map_values(|o: JsonObject| o@) == v@.map_values(|o: JsonObject| o@),
    decreases v,
{
    let mut r: Vec<JsonObject> = Vec::new();
    let mut i: usize = 0;
    while i < v.len()
        invariant
            i <= v.len(),
            r@.map_values(|o: JsonObject| o@) == v@.map_values(|o: JsonObject| o@).take(i as int),
        decreases v.len() - i,
    {
        let ghost before = r@;
        proof {
            assert(decreases_to!(v => v@[i as int]));
        }
        let o = v[i].deep_clone();
        r.push(o);
        assert(r@ =~= before.push(o));
        assert(r@.map_values(|o: JsonObject| o@) =~= before.map_values(|o: JsonObject| o@).push(o@));
        i = i + 1;
        assert(r@.map_values(|o: JsonObject| o@) =~= v@.map_values(|o: JsonObject| o@).take(i as int));
    }
    assert(v@.map_values(|o: JsonObject| o@).take(i as int) =~= v@.map_values(|o: JsonObject| o@));
    r
}

impl JsonObject {
    /// An object without properties.
    pub fn new() -> (o: JsonObject)
        ensures
            o@ == Seq::<(Seq<char>, JsonValue)>::empty(),
    {
        let o = JsonObject { properties: Vec::new() };
        assert(o@ =~= Seq::<(Seq<char>, JsonValue)>::empty());
        o
    }

    /// Adds a property after the others.
    pub fn add_property(&mut self, key: JsonPropertyKey, val: JsonPropertyValue)
        ensures
            final(self)@ == old(self)@.push((key@, val@)),
    {
        let ghost k = key@;
        let ghost v = val@;
        self.properties.push(JsonProperty { key, value: val });
        assert(self.properties@.drop_last() =~= old(self).properties@);
    }

    /// The number of properties.
    pub fn len(&self) -> (n: usize)
        ensures
            n == self@.len(),
    {
        proof {
            lemma_properties_view_len(self.properties@);
        }
        self.properties.len()
    }

    /// A copy of the object.
    pub fn deep_clone(&self) -> (r: JsonObject)
        ensures
            r@ == self@,
        decreases self,
    {
        let mut props: Vec<JsonProperty> = Vec::new();
        let mut i: usize = 0;
        while i < self.properties.len()
            invariant
                i <= self.properties.len(),
                properties_view(props@) == properties_view(self.properties@.take(i as int)),
            decreases self.properties.len() - i,
        {
            proof {
                assert(decreases_to!(self => self.properties@[i as int].value));
            }
            let value = self.properties[i].value.deep_clone();
            let key = JsonPropertyKey::new(self.properties[i].key.get_name());
            let ghost before = props@;
            props.push(JsonProperty { key, value });
            assert(props@.drop_last() =~= before);
            assert(self.properties@.take(i + 1).drop_last() =~= self.properties@.take(i as int));
            i = i + 1;
        }
        assert(self.properties@.take(i as int) =~= self.properties@);
        JsonObject { properties: props }
    }

    /// The value of the first property named `name`, if any.
    pub fn find_property(&self, name: &str) -> (r: Option<&JsonPropertyValue>)
        ensures
            match r {
                Some(v) => lookup(self@, name@) == Some(v@),
                None => lookup(self@, name@) is None,
            },
    {
        let mut i: usize = 0;
        proof {
            lemma_properties_view_len(self.properties@);
        }
        assert(self@.skip(0) =~= self@);
        while i < self.properties.len()
            invariant
                i <= self.properties.len(),
                self@.len() == self.properties.len(),
                lookup(self@, name@) == lookup(self@.skip(i as int), name@),
            decreases self.properties.len() - i,
        {
            proof {
                lemma_properties_view_index(self.properties@, i as int);
                assert(self@.skip(i as int)[0] == self@[i as int]);
                assert(self@.skip(i as int).drop_first() =~= self@.skip(i + 1));
            }
            if crate::text::str_equal(self.properties[i].key.name.as_str(), name) {
                return Some(&self.properties[i].value);
            }
            i = i + 1;
        }
        None
    }
}

impl std::default::Default for JsonObject {
    fn default() -> (o: Self)
        ensures
            o@ == Seq::<(Seq<char>, JsonValue)>::empty(),
    {
        JsonObject::new()
    }
}

proof fn lemma_properties_view_len(props: Seq<JsonProperty>)
    ensures
        properties_view(props).len() == props.len(),
    decreases props.len(),
{
    if props.len() > 0 {
        lemma_properties_view_len(props.drop_last());
    }
}

proof fn lemma_properties_view_index(props: Seq<JsonProperty>, i: int)
    requires
        0 <= i < props.len(),
    ensures
        properties_view(props)[i] == (props[i].key@, props[i].value@),
    decreases props.len(),
{
    lemma_properties_view_len(props);
    if i < props.len() - 1 {
        lemma_properties_view_index(props.drop_last(), i);
        lemma_properties_view_len(props.drop_last());
    }
}

} // verus!

verus! {

/// After `JsonObject::add_property(key, value)`, looking `key` up gives
/// `value` unless a property of that name was already there (the first one
/// is found); every other name is found as before.
pub proof fn lemma_lookup_after_add(
    props: Seq<(Seq<char>, JsonValue)>,
    key: Seq<char>,
    value: JsonValue,
    other: Seq<char>,
)
    requires
        other != key,
    ensures
        lookup(props.push((key, value)), key) == (match lookup(props, key) {
            Some(v) => Some(v),
            None => Some(value),
        }),
        lookup(props.push((key, value)), other) == lookup(props, other),
    decreases props.len(),
{
    let added = props.push((key, value));
    if props.len() > 0 {
        assert(added.drop_first() =~= props.drop_first().push((key, value)));
        lemma_lookup_after_add(props.drop_first(), key, value, other);
    } else {
        assert(added.drop_first() =~= Seq::<(Seq<char>, JsonValue)>::empty());
        assert(lookup(added.drop_first(), other) is None);
    }
}

} // verus!

verus! {

/// Two values hold the same fields: the same kind, the same string, the same
/// strings and, field by field, the same objects.
pub closed spec fn value_fields_equal(a: JsonPropertyValue, b: JsonPropertyValue) -> bool
    decreases a,
{
    &&& a.value_type == b.value_type
    &&& a.string_value@ == b.string_value@
    &&& a.string_array_value.deep_view() == b.string_array_value.deep_view()
    &&& object_fields_equal(a.json_object_value, b.json_object_value)
    &&& a.json_object_array_value@.len() == b.json_object_array_value@.len()
    &&& forall|i: int|
        0 <= i < a.json_object_array_value@.len() ==> object_fields_equal(
            #[trigger] a.json_object_array_value@[i],
            b.json_object_array_value@[i],
        )
}

/// Two objects hold, in order, properties of the same names whose values
/// hold the same fields.
pub closed spec fn object_fields_equal(a: JsonObject, b: JsonObject) -> bool
    decreases a,
{
    &&& a.properties@.len() == b.properties@.len()
    &&& forall|i: int|
        0 <= i < a.properties@.len() ==> a.properties@[i].key@ == b.properties@[i].key@
            && value_fields_equal(#[trigger] a.properties@[i].value, b.properties@[i].value)
}

/// Whether two lists of strings hold the same strings.
fn strings_equal(a: &Vec<String>, b: &Vec<String>) -> (r: bool)
    ensures
        r == (a.deep_view() == b.deep_view()),
{
    if a.len() != b.len() {
        assert(a.deep_view().len() != b.deep_view().len());
        return false;
    }
    let mut i: usize = 0;
    while i < a.len()
        invariant
            i <= a.len(),
            a.len() == b.len(),
            forall|k: int| 0 <= k < i ==> a[k]@ == b[k]@,
        decreases a.len() - i,
    {
        if !crate::text::str_equal(a[i].as_str(), b[i].as_str()) {
            assert(a.deep_view()[i as int] != b.deep_view()[i as int]);
            return false;
        }
        i = i + 1;
    }
    assert(a.deep_view() =~= b.deep_view());
    true
}

impl JsonObject {
    /// Whether two objects hold, in order, properties of the same names
    /// whose values hold the same fields.
    pub fn fields_equal(&self, other: &JsonObject) -> (r: bool)
        ensures
            r == object_fields_equal(*self, *other),
        decreases self,
    {
        if self.properties.len() != other.properties.len() {
            return false;
        }
        let mut i: usize = 0;
        while i < self.properties.len()
            invariant
                i <= self.properties.len(),
                self.properties.len() == other.properties.len(),
                forall|k: int|
                    0 <= k < i ==> self.properties@[k].key@ == other.properties@[k].key@
                        && value_fields_equal(
                        #[trigger] self.properties@[k].value,
                        other.properties@[k].value,
                    ),
            decreases self.properties.len() - i,
        {
            proof {
                assert(decreases_to!(self => self.properties@[i as int].value));
            }
            if !crate::text::str_equal(
                self.properties[i].key.name.as_str(),
                other.properties[i].key.name.as_str(),
            ) {
                return false;
            }
            if !self.properties[i].value.fields_equal(&other.properties[i].value) {
                return false;
            }
            i = i + 1;
        }
        true
    }
}

impl JsonPropertyValue {
    /// Whether two values hold the same fields.
    pub fn fields_equal(&self, other: &JsonPropertyValue) -> (r: bool)
        ensures
            r == value_fields_equal(*self, *other),
        decreases self,
    {
        if self.value_type != other.value_type {
            return false;
        }
        if !crate::text::str_equal(self.string_value.as_str(), other.string_value.as_str()) {
            return false;
        }
        if !strings_equal(&self.string_array_value, &other.string_array_value) {
            return false;
        }
        if !self.json_object_value.fields_equal(&other.json_object_value) {
            return false;
        }
        if self.json_object_array_value.len() != other.json_object_array_value.len() {
            return false;
        }
        let mut i: usize = 0;
        while i < self.json_object_array_value.len()
            invariant
                i <= self.json_object_array_value.len(),
                self.json_object_array_value.len() == other.json_object_array_value.len(),
                forall|k: int|
                    0 <= k < i ==> object_fields_equal(
                        #[trigger] self.json_object_array_value@[k],
                        other.json_object_array_value@[k],
                    ),
            decreases self.json_object_array_value.len() - i,
        {
            proof {
                assert(decreases_to!(self => self.json_object_array_value@[i as int]));
            }
            if !self.json_object_array_value[i].fields_equal(&other.json_object_array_value[i]) {
                return false;
            }
            i = i + 1;
        }
        true
    }
}

impl PartialEq for JsonPropertyValue {
    fn eq(&self, other: &Self) -> (res: bool) {
        self.fields_equal(other)
    }
}

impl vstd::std_specs::cmp::PartialEqSpecImpl for JsonPropertyValue {
    open spec fn obeys_eq_spec() -> bool {
        true
    }

    open spec fn eq_spec(&self, other: &Self) -> bool {
        value_fields_equal(*self, *other)
    }
}

impl PartialEq for JsonObject {
    fn eq(&self, other: &Self) -> (res: bool) {
        self.fields_equal(other)
    }
}

impl vstd::std_specs::cmp::PartialEqSpecImpl for JsonObject {
    open spec fn obeys_eq_spec() -> bool {
        true
    }

    open spec fn eq_spec(&self, other: &Self) -> bool {
        object_fields_equal(*self, *other)
    }
}

} // verus!

verus! {

/// Every value equals itself (`JsonPropertyValue`'s `==` is reflexive).
pub proof fn lemma_value_fields_equal_reflexive(a: JsonPropertyValue)
    ensures
        value_fields_equal(a, a),
    decreases a,
{
    lemma_object_fields_equal_reflexive(a.json_object_value);
    assert forall|i: int| 0 <= i < a.json_object_array_value@.len() implies object_fields_equal(
        #[trigger] a.json_object_array_value@[i],
        a.json_object_array_value@[i],
    ) by {
        assert(decreases_to!(a => a.json_object_array_value@[i]));
        lemma_object_fields_equal_reflexive(a.json_object_array_value@[i]);
    }
}

/// Every object equals itself (`JsonObject`'s `==` is reflexive).
pub proof fn lemma_object_fields_equal_reflexive(a: JsonObject)
    ensures
        object_fields_equal(a, a),
    decreases a,
{
    assert forall|i: int| 0 <= i < a.properties@.len() implies a.properties@[i].key@
        == a.properties@[i].key@ && value_fields_equal(
        #[trigger] a.properties@[i].value,
        a.properties@[i].value,
    ) by {
        assert(decreases_to!(a => a.properties@[i].value));
        lemma_value_fields_equal_reflexive(a.properties@[i].value);
    }
}

} // verus!
