use crate::json::json_value::{JsonPropertyValue, JsonValue, PropertyType};
use crate::json::reading_object::{initialize_interface, IReadingObjectBase, ReadableType, ReadingObject};
use crate::json::reading_property::{ReadingPropertyKey, ReadingPropertyValue};
use vstd::prelude::*;

verus! {

/// A stack of values being read: the innermost one is on top.
pub struct Context<TValue> {
    current_reading_values: Vec<TValue>,
}

impl<TValue> View for Context<TValue> {
    type V = Seq<TValue>;

    open spec fn view(&self) -> Seq<TValue> {
        self.spec_values()
    }
}

impl<TValue> Context<TValue> {
    pub closed spec fn spec_values(&self) -> Seq<TValue> {
        self.current_reading_values@
    }

    /// An empty stack.
    pub fn new() -> (c: Context<TValue>)
        ensures
            c@ == Seq::<TValue>::empty(),
    {
        Context { current_reading_values: Vec::new() }
    }

    /// Whether some value is being read.
    pub fn has_reading_value(&self) -> (r: bool)
        ensures
            r == (self@.len() > 0),
    {
        self.current_reading_values.len() > 0
    }

    /// The position of the innermost value.
    pub fn get_current_reading_index(&self) -> (i: usize)
        requires
            self@.len() > 0,
        ensures
            i == self@.len() - 1,
    {
        self.current_reading_values.len() - 1
    }

    /// Hands the innermost value to `func`.
    pub fn use_current_reading_value<UseFunc>(&mut self, func: UseFunc)
        where
            UseFunc: FnOnce(&mut TValue),
        requires
            old(self)@.len() > 0,
            forall|v: &mut TValue| call_requires(func, (v,)),
        ensures
            final(self)@.len() == old(self)@.len(),
            final(self)@.drop_last() == old(self)@.drop_last(),
            exists|v: &mut TValue|
                *v == old(self)@.last() && *final(v) == final(self)@.last() && call_ensures(
                    func,
                    (v,),
                    (),
                ),
    {
        let index = self.current_reading_values.len() - 1;
        func(&mut self.current_reading_values[index]);
    }

    /// Begins reading a new innermost value: the default value, made to
    /// remember `current_scope_context`, is handed to `use_new_value` and
    /// pushed as the innermost value.
    pub fn create_nested_reading_value<UseFunc>(
        &mut self,
        current_scope_context: ReadableType,
        use_new_value: UseFunc,
    )
        where
            UseFunc: FnOnce(&mut TValue),
            TValue: IReadingObjectBase + std::default::Default,
        requires
            forall|v: &mut TValue| call_requires(use_new_value, (v,)),
        ensures
            final(self)@.len() == old(self)@.len() + 1,
            final(self)@.drop_last() == old(self)@,
            exists|d: TValue, v: &mut TValue|
                call_ensures(TValue::default, (), d) && *v == d.spec_with_previous_crawler_context(
                    current_scope_context,
                ) && (*v).spec_previous_crawler_context() == current_scope_context && *final(v)
                    == final(self)@.last() && call_ensures(use_new_value, (v,), ()),
    {
        let mut new_value: TValue = TValue::default();
        initialize_interface(&mut new_value, current_scope_context);
        self.current_reading_values.push(new_value);
        self.use_current_reading_value(use_new_value);
    }

    /// Whether exactly one value is being read: the outermost one.
    pub fn current_value_is_root_value(&self) -> (r: bool)
        ensures
            r == (self@.len() == 1),
    {
        self.current_reading_values.len() == 1
    }

    /// Whether no value is being read.
    pub fn is_empty(&self) -> (r: bool)
        ensures
            r == (self@.len() == 0),
    {
        self.current_reading_values.len() == 0
    }

    /// Drops the innermost value.
    pub fn remove_current_value(&mut self)
        requires
            old(self)@.len() > 0,
        ensures
            final(self)@ == old(self)@.drop_last(),
    {
        let index = self.current_reading_values.len() - 1;
        self.current_reading_values.remove(index);
    }
}

/// Where the crawler stands in a document: the characters it has just met,
/// whether it is inside quotes, and the objects, property names and
/// property values it is reading.
pub struct Scope {
    pub debug_string: String,
    pub current_context: ReadableType,
    pub previous_char: String,
    pub current_char: String,
    pub inside_parentheses: bool,
    pub previous_character_escaped_via_backslash: bool,
    pub reading_json_objects: Context<ReadingObject>,
    pub reading_json_property_keys: Context<ReadingPropertyKey>,
    pub reading_json_property_values: Context<ReadingPropertyValue>,
}

/// The position of the innermost value of kind `t` among `values`, or -1
/// where there is none.
pub open spec fn innermost_of_kind(values: Seq<ReadingPropertyValue>, t: PropertyType) -> int
    decreases values.len(),
{
    if values.len() == 0 {
        -1
    } else if values.last().spec_kind() == t {
        values.len() - 1
    } else {
        innermost_of_kind(values.drop_last(), t)
    }
}

proof fn lemma_innermost_of_kind(values: Seq<ReadingPropertyValue>, t: PropertyType)
    ensures
        -1 <= innermost_of_kind(values, t) < values.len(),
        innermost_of_kind(values, t) >= 0 ==> values[innermost_of_kind(values, t)].spec_kind() == t,
        forall|i: int|
            innermost_of_kind(values, t) < i < values.len() ==> (#[trigger] values[i]).spec_kind()
                != t,
    decreases values.len(),
{
    if values.len() > 0 && values.last().spec_kind() != t {
        lemma_innermost_of_kind(values.drop_last(), t);
        assert forall|i: int| innermost_of_kind(values, t) < i < values.len() implies (
        #[trigger] values[i]).spec_kind() != t by {
            if i < values.len() - 1 {
                assert(values[i] == values.drop_last()[i]);
            }
        }
    }
}

/// Two scopes stand at the same place of a document: only the stacks of
/// values being read may differ.
pub open spec fn same_position(a: Scope, b: Scope) -> bool {
    &&& a.debug_string@ == b.debug_string@
    &&& a.current_context == b.current_context
    &&& a.previous_char@ == b.previous_char@
    &&& a.current_char@ == b.current_char@
    &&& a.inside_parentheses == b.inside_parentheses
    &&& a.previous_character_escaped_via_backslash == b.previous_character_escaped_via_backslash
}

/// `after` is `before` with the innermost property name and value added, as
/// a property, to the innermost object, and both dropped from their stacks.
pub open spec fn property_added(before: Scope, after: Scope) -> bool {
    let objs = before.reading_json_objects@;
    let n = objs.len();
    let keys = before.reading_json_property_keys@;
    let values = before.reading_json_property_values@;
    let parent = objs[n - 1];
    let new_parent = after.reading_json_objects@[n - 1];
    &&& after.reading_json_objects@.len() == n
    &&& after.reading_json_objects@.drop_last() == objs.drop_last()
    &&& new_parent.spec_value() == parent.spec_value().push(
        (keys.last().spec_name(), values.last().spec_value()),
    )
    &&& new_parent.spec_finalized() == parent.spec_finalized()
    &&& new_parent.spec_previous_context() == parent.spec_previous_context()
    &&& after.reading_json_property_keys@ == keys.drop_last()
    &&& after.reading_json_property_values@ == values.drop_last()
    &&& same_position(before, after)
}

/// `after` is `before` with the innermost object, which is complete, made
/// the value of the innermost property name in the enclosing object; the
/// name is dropped from its stack.
pub open spec fn object_closed_into_property(before: Scope, after: Scope) -> bool {
    let objs = before.reading_json_objects@;
    let n = objs.len();
    let keys = before.reading_json_property_keys@;
    let parent = objs[n - 2];
    let new_parent = after.reading_json_objects@[n - 2];
    &&& after.reading_json_objects@.len() == n - 1
    &&& after.reading_json_objects@.drop_last() == objs.drop_last().drop_last()
    &&& new_parent.spec_value() == parent.spec_value().push(
        (keys.last().spec_name(), JsonValue::Object(objs.last().spec_value())),
    )
    &&& new_parent.spec_finalized() == parent.spec_finalized()
    &&& new_parent.spec_previous_context() == parent.spec_previous_context()
    &&& after.reading_json_property_keys@ == keys.drop_last()
    &&& after.reading_json_property_values@ == before.reading_json_property_values@
    &&& same_position(before, after)
}

/// `after` is `before` with `element` added to the list at position `j`
/// of the stack of property values, and nothing else changed.
pub open spec fn list_element_added(before: Scope, after: Scope, j: int, element: JsonValue) -> bool {
    let values = before.reading_json_property_values@;
    let list = values[j];
    let new_list = after.reading_json_property_values@[j];
    &&& after.reading_json_property_values@.len() == values.len()
    &&& forall|i: int|
        0 <= i < values.len() && i != j ==> after.reading_json_property_values@[i] == values[i]
    &&& new_list.spec_kind() == list.spec_kind()
    &&& new_list.spec_text() == list.spec_text()
    &&& new_list.spec_object() == list.spec_object()
    &&& new_list.spec_previous_context() == list.spec_previous_context()
    &&& new_list.spec_finalized() == list.spec_finalized()
    &&& (element matches JsonValue::Str(t) ==> new_list.spec_strings() == list.spec_strings().push(t)
        && new_list.spec_objects() == list.spec_objects())
    &&& (element matches JsonValue::Object(o) ==> new_list.spec_objects()
        == list.spec_objects().push(o) && new_list.spec_strings() == list.spec_strings())
    &&& after.reading_json_property_keys@ == before.reading_json_property_keys@
    &&& same_position(before, after)
}

impl Scope {
    pub open spec fn spec_current_char(&self) -> Seq<char> {
        self.current_char@
    }

    pub open spec fn spec_previous_char(&self) -> Seq<char> {
        self.previous_char@
    }

    /// The scope at the start of a document.
    pub fn new() -> (scope: Scope)
        ensures
            scope.debug_string@ == Seq::<char>::empty(),
            scope.spec_current_char() == Seq::<char>::empty(),
            scope.spec_previous_char() == Seq::<char>::empty(),
            scope.current_context == ReadableType::Nothing,
            !scope.inside_parentheses,
            !scope.previous_character_escaped_via_backslash,
            scope.reading_json_objects@ == Seq::<ReadingObject>::empty(),
            scope.reading_json_property_keys@ == Seq::<ReadingPropertyKey>::empty(),
            scope.reading_json_property_values@ == Seq::<ReadingPropertyValue>::empty(),
    {
        Scope {
            debug_string: String::new(),
            current_context: ReadableType::Nothing,
            previous_char: String::new(),
            current_char: String::new(),
            inside_parentheses: false,
            previous_character_escaped_via_backslash: false,
            reading_json_objects: Context::new(),
            reading_json_property_keys: Context::new(),
            reading_json_property_values: Context::new(),
        }
    }

    /// Moves on to `new_character`: the current one becomes the previous one.
    pub fn set_current_character(&mut self, new_character: &String)
        ensures
            final(self).spec_previous_char() == old(self).spec_current_char(),
            final(self).spec_current_char() == new_character@,
            final(self).debug_string@ == old(self).debug_string@,
            final(self).current_context == old(self).current_context,
            final(self).inside_parentheses == old(self).inside_parentheses,
            final(self).previous_character_escaped_via_backslash
                == old(self).previous_character_escaped_via_backslash,
            final(self).reading_json_objects@ == old(self).reading_json_objects@,
            final(self).reading_json_property_keys@ == old(self).reading_json_property_keys@,
            final(self).reading_json_property_values@ == old(self).reading_json_property_values@,
    {
        self.previous_char = self.current_char.clone();
        self.current_char = new_character.clone();
    }

    pub fn get_current_character(&self) -> (c: String)
        ensures
            c@ == self.spec_current_char(),
    {
        self.current_char.clone()
    }

    pub fn get_previous_character(&self) -> (c: String)
        ensures
            c@ == self.spec_previous_char(),
    {
        self.previous_char.clone()
    }

    /// The position of the innermost property value of kind `t`.
    fn innermost_index_of_kind(&self, t: PropertyType) -> (r: Option<usize>)
        ensures
            match r {
                Some(j) => j == innermost_of_kind(self.reading_json_property_values@, t),
                None => innermost_of_kind(self.reading_json_property_values@, t) == -1,
            },
    {
        let values = &self.reading_json_property_values.current_reading_values;
        let ghost all = values@;
        assert(all == self.reading_json_property_values@);
        let mut k: usize = values.len();
        assert(all.take(k as int) =~= all);
        while k > 0
            invariant
                k <= values.len(),
                all == values@,
                all == self.reading_json_property_values@,
                innermost_of_kind(all, t) == innermost_of_kind(all.take(k as int), t),
            decreases k,
        {
            assert(all.take(k as int).last() == values@[k - 1]);
            assert(all.take(k as int).drop_last() =~= all.take(k - 1));
            if values[k - 1].get_value_type() == t {
                assert(innermost_of_kind(all.take(k as int), t) == k - 1);
                return Some(k - 1);
            }
            k = k - 1;
        }
        None
    }

    /// Hands the innermost property value of kind `value_type` (a list
    /// being read) to `func`. There must be one.
    pub fn use_current_reading_property_list<UseFunc>(&mut self, value_type: PropertyType, func: UseFunc)
        where
            UseFunc: FnOnce(&mut ReadingPropertyValue),
        requires
            innermost_of_kind(old(self).reading_json_property_values@, value_type) >= 0,
            forall|v: &mut ReadingPropertyValue| call_requires(func, (v,)),
        ensures
            ({
                let before = old(self).reading_json_property_values@;
                let after = final(self).reading_json_property_values@;
                let j = innermost_of_kind(before, value_type);
                &&& after.len() == before.len()
                &&& forall|i: int| 0 <= i < before.len() && i != j ==> after[i] == before[i]
                &&& exists|v: &mut ReadingPropertyValue|
                    *v == before[j] && *final(v) == after[j] && call_ensures(func, (v,), ())
            }),
            final(self).reading_json_objects@ == old(self).reading_json_objects@,
            final(self).reading_json_property_keys@ == old(self).reading_json_property_keys@,
            same_position(*old(self), *final(self)),
    {
        proof {
            lemma_innermost_of_kind(self.reading_json_property_values@, value_type);
        }
        let j = match self.innermost_index_of_kind(value_type) {
            Some(j) => j,
            None => 0,
        };
        func(&mut self.reading_json_property_values.current_reading_values[j]);
    }

    /// Adds the innermost property name and value, as a property, to the
    /// innermost object, and drops them from their stacks.
    pub fn add_current_property_to_current_object(&mut self)
        requires
            old(self).reading_json_objects@.len() >= 1,
            old(self).reading_json_property_keys@.len() >= 1,
            old(self).reading_json_property_values@.len() >= 1,
        ensures
            property_added(*old(self), *final(self)),
    {
        let mut key_reader = self.reading_json_property_keys.current_reading_values.pop().unwrap();
        let member_key = key_reader.built_value();
        let mut value_reader = self.reading_json_property_values.current_reading_values.pop().unwrap();
        let member_value = value_reader.built_value();
        let mut parent = self.reading_json_objects.current_reading_values.pop().unwrap();
        parent.add_property(member_key, member_value);
        self.reading_json_objects.current_reading_values.push(parent);
        assert(self.reading_json_objects@.drop_last() =~= old(self).reading_json_objects@.drop_last());
    }

    /// Makes the innermost object, which must be complete, the value of the
    /// innermost property name in the enclosing object.
    pub fn finalize_current_object(&mut self)
        requires
            old(self).reading_json_objects@.len() >= 2,
            old(self).reading_json_objects@.last().spec_finalized(),
            old(self).reading_json_property_keys@.len() >= 1,
        ensures
            object_closed_into_property(*old(self), *final(self)),
    {
        let mut child = self.reading_json_objects.current_reading_values.pop().unwrap();
        let object_to_be_property = child.built_value();
        let mut object_as_property_value = ReadingPropertyValue::new(PropertyType::JSON_Object);
        object_as_property_value.set_previous_crawler_context(self.current_context);
        object_as_property_value.set_object(object_to_be_property);
        self.reading_json_property_values.current_reading_values.push(object_as_property_value);
        let ghost middle = *self;
        self.add_current_property_to_current_object();
        assert(middle.reading_json_property_values@.drop_last() =~= old(self).reading_json_property_values@);
        assert(middle.reading_json_objects@ =~= old(self).reading_json_objects@.drop_last());
    }

    /// Adds the innermost property value (a non-empty string or an object)
    /// to the innermost list of its kind; the value stays on its stack.
    pub fn add_current_property_to_current_list(&mut self)
        requires
            old(self).reading_json_property_values@.len() >= 1,
            ({
                let values = old(self).reading_json_property_values@;
                let v = values.last();
                ||| v.spec_kind() == PropertyType::String && v.spec_text().len() > 0
                    && innermost_of_kind(values, PropertyType::String_List) >= 0
                ||| v.spec_kind() == PropertyType::JSON_Object && innermost_of_kind(
                    values,
                    PropertyType::JSON_Object_List,
                ) >= 0
            }),
        ensures
            ({
                let values = old(self).reading_json_property_values@;
                let v = values.last();
                let list_kind = if v.spec_kind() == PropertyType::String {
                    PropertyType::String_List
                } else {
                    PropertyType::JSON_Object_List
                };
                list_element_added(
                    *old(self),
                    *final(self),
                    innermost_of_kind(values, list_kind),
                    v.spec_value(),
                )
            }),
            final(self).reading_json_objects@ == old(self).reading_json_objects@,
    {
        let mut current = self.reading_json_property_values.current_reading_values.pop().unwrap();
        let new_value: JsonPropertyValue = current.built_value();
        self.reading_json_property_values.current_reading_values.push(current);
        assert(self.reading_json_property_values@ =~= old(self).reading_json_property_values@);
        self.add_to_innermost_list(new_value);
    }

    /// Adds `element` (a string or an object) to the innermost list of its
    /// kind.
    pub(crate) fn add_to_innermost_list(&mut self, element: JsonPropertyValue)
        requires
            (element@ is Str && innermost_of_kind(
                old(self).reading_json_property_values@,
                PropertyType::String_List,
            ) >= 0) || (element@ is Object && innermost_of_kind(
                old(self).reading_json_property_values@,
                PropertyType::JSON_Object_List,
            ) >= 0),
        ensures
            list_element_added(
                *old(self),
                *final(self),
                innermost_of_kind(
                    old(self).reading_json_property_values@,
                    if element@ is Str {
                        PropertyType::String_List
                    } else {
                        PropertyType::JSON_Object_List
                    },
                ),
                element@,
            ),
            final(self).reading_json_objects@ == old(self).reading_json_objects@,
    {
        let list_type = if element.get_value_type() == PropertyType::JSON_Object {
            PropertyType::JSON_Object_List
        } else {
            PropertyType::String_List
        };
        proof {
            lemma_innermost_of_kind(self.reading_json_property_values@, list_type);
        }
        let j = match self.innermost_index_of_kind(list_type) {
            Some(j) => j,
            None => 0,
        };
        let mut list = self.reading_json_property_values.current_reading_values.remove(j);
        list.add_list_element(element);
        self.reading_json_property_values.current_reading_values.insert(j, list);
    }

    /// Takes the innermost object, which must be complete, off its stack.
    pub(crate) fn take_current_object(&mut self) -> (o: crate::json::json_value::JsonObject)
        requires
            old(self).reading_json_objects@.len() >= 1,
            old(self).reading_json_objects@.last().spec_finalized(),
        ensures
            o@ == old(self).reading_json_objects@.last().spec_value(),
            final(self).reading_json_objects@ == old(self).reading_json_objects@.drop_last(),
            final(self).reading_json_property_keys@ == old(self).reading_json_property_keys@,
            final(self).reading_json_property_values@ == old(self).reading_json_property_values@,
            same_position(*old(self), *final(self)),
    {
        let mut current = self.reading_json_objects.current_reading_values.pop().unwrap();
        current.built_value()
    }
}

} // verus!

verus! {

/// Beginning a nested value (`Context::create_nested_reading_value`) and
/// then dropping it (`Context::remove_current_value`) leaves the stack as it
/// was.
pub proof fn lemma_nested_then_removed<TValue>(before: Seq<TValue>, during: Seq<TValue>, after: Seq<TValue>)
    requires
        during.len() == before.len() + 1,
        during.drop_last() == before,
        after == during.drop_last(),
    ensures
        after == before,
{
}

} // verus!
