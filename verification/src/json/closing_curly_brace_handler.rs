use crate::json::json_value::{JsonPropertyValue, JsonValue, PropertyType};
use crate::json::scope::{innermost_of_kind, list_element_added, object_closed_into_property, Scope};
use vstd::prelude::*;

verus! {

/// What a closing brace `}` does, by what the crawler was reading when it
/// met it.
#[derive(Copy, Clone)]
pub struct ClosingCurlyBraceHandler {}

/// The scope may take a closing brace that ends an object inside another
/// object: the innermost object is complete and a property name waits for
/// it.
pub open spec fn can_close_into_property(scope: Scope) -> bool {
    &&& scope.reading_json_objects@.len() >= 2
    &&& scope.reading_json_objects@.last().spec_finalized()
    &&& scope.reading_json_property_keys@.len() >= 1
}

impl ClosingCurlyBraceHandler {
    pub fn new() -> (handler: ClosingCurlyBraceHandler) {
        ClosingCurlyBraceHandler {  }
    }

    /// `}` where nothing in particular was being read.
    pub fn register_none_context(&mut self, current_scope: &mut Scope)
        requires
            can_close_into_property(*old(current_scope)),
        ensures
            object_closed_into_property(*old(current_scope), *final(current_scope)),
    {
        self.register_default_context(current_scope);
    }

    /// `}` while a property name was being read.
    pub fn register_property_key_context(&mut self, current_scope: &mut Scope)
        requires
            can_close_into_property(*old(current_scope)),
        ensures
            object_closed_into_property(*old(current_scope), *final(current_scope)),
    {
        self.register_default_context(current_scope);
    }

    /// `}` that ends an object which is a property's value.
    pub fn register_property_value_object_context(&mut self, current_scope: &mut Scope)
        requires
            can_close_into_property(*old(current_scope)),
        ensures
            object_closed_into_property(*old(current_scope), *final(current_scope)),
    {
        self.register_default_context(current_scope);
    }

    /// `}` that ends an object inside a list of objects: the object becomes
    /// the next element of the innermost list of objects.
    pub fn register_property_value_object_array_context(&mut self, current_scope: &mut Scope)
        requires
            old(current_scope).reading_json_objects@.len() >= 1,
            old(current_scope).reading_json_objects@.last().spec_finalized(),
            innermost_of_kind(
                old(current_scope).reading_json_property_values@,
                PropertyType::JSON_Object_List,
            ) >= 0,
        ensures
            final(current_scope).reading_json_objects@ == old(
                current_scope,
            ).reading_json_objects@.drop_last(),
            list_element_added(
                *old(current_scope),
                *final(current_scope),
                innermost_of_kind(
                    old(current_scope).reading_json_property_values@,
                    PropertyType::JSON_Object_List,
                ),
                JsonValue::Object(old(current_scope).reading_json_objects@.last().spec_value()),
            ),
    {
        let built_object = current_scope.take_current_object();
        current_scope.add_to_innermost_list(JsonPropertyValue::new_with_object(built_object));
    }

    /// `}` while a value was being read as text.
    pub fn register_property_value_primitive_as_string_context(&mut self, current_scope: &mut Scope)
        requires
            can_close_into_property(*old(current_scope)),
        ensures
            object_closed_into_property(*old(current_scope), *final(current_scope)),
    {
        self.register_default_context(current_scope);
    }

    /// `}` while a list of strings was being read.
    pub fn register_property_value_string_array_context(&mut self, current_scope: &mut Scope)
        requires
            can_close_into_property(*old(current_scope)),
        ensures
            object_closed_into_property(*old(current_scope), *final(current_scope)),
    {
        self.register_default_context(current_scope);
    }

    /// `}` while a string was being read.
    pub fn register_property_value_string_context(&mut self, current_scope: &mut Scope)
        requires
            can_close_into_property(*old(current_scope)),
        ensures
            object_closed_into_property(*old(current_scope), *final(current_scope)),
    {
        self.register_default_context(current_scope);
    }

    /// `}` while a list of unknown kind was being read.
    pub fn register_property_value_unknown_array_context(&mut self, current_scope: &mut Scope)
        requires
            can_close_into_property(*old(current_scope)),
        ensures
            object_closed_into_property(*old(current_scope), *final(current_scope)),
    {
        self.register_default_context(current_scope);
    }

    /// `}` while the outermost object was being read.
    pub fn register_root_object_context(&mut self, current_scope: &mut Scope)
        requires
            can_close_into_property(*old(current_scope)),
        ensures
            object_closed_into_property(*old(current_scope), *final(current_scope)),
    {
        self.register_default_context(current_scope);
    }

    /// `}` that ends an object which is a property's value: the object
    /// becomes the value of the innermost property name, in the enclosing
    /// object.
    pub fn register_default_context(&mut self, current_scope: &mut Scope)
        requires
            can_close_into_property(*old(current_scope)),
        ensures
            object_closed_into_property(*old(current_scope), *final(current_scope)),
    {
        current_scope.finalize_current_object();
    }
}

} // verus!
