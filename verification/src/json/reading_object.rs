use crate::json::json_value::{JsonObject, JsonPropertyKey, JsonPropertyValue, JsonValue};
use vstd::prelude::*;

verus! {

/// What the crawler is reading when it meets a character.
#[derive(Copy, Clone, PartialEq, Eq, Structural, Debug)]
pub enum ReadableType {
    Nothing,
    RootObject,
    PropertyKey,
    PropertyValueUnknownArray,
    PropertyValueString,
    PropertyValuePrimitiveAsString,
    PropertyValueObject,
    PropertyValueStringArray,
    PropertyValueObjectArray,
}

/// A value being read that remembers what the crawler was reading before it
/// began.
pub trait IReadingObjectBase: Sized {
    spec fn spec_previous_crawler_context(&self) -> ReadableType;

    /// The same value, remembering `previous` instead.
    spec fn spec_with_previous_crawler_context(&self, previous: ReadableType) -> Self;

    fn is_finalized(&self) -> bool;

    fn get_previous_crawler_context(&self) -> (r: ReadableType)
        ensures
            r == self.spec_previous_crawler_context(),
    ;

    fn set_previous_crawler_context(&mut self, new_type: ReadableType)
        ensures
            final(self).spec_previous_crawler_context() == new_type,
            *final(self) == old(self).spec_with_previous_crawler_context(new_type),
    ;
}

/// Prepares a new value: it remembers `previous`, what the crawler was
/// reading before it.
pub fn initialize_interface<T: IReadingObjectBase>(value: &mut T, previous: ReadableType)
    ensures
        final(value).spec_previous_crawler_context() == previous,
        *final(value) == old(value).spec_with_previous_crawler_context(previous),
{
    value.set_previous_crawler_context(previous);
}

/// An object that is being read: the properties read so far, and whether
/// its closing brace has been met.
pub struct ReadingObject {
    ending_curly_brace_registered: bool,
    built_value: JsonObject,
    previous_crawler_context: ReadableType,
}

impl ReadingObject {
    pub closed spec fn spec_finalized(&self) -> bool {
        self.ending_curly_brace_registered
    }

    pub closed spec fn spec_value(&self) -> Seq<(Seq<char>, JsonValue)> {
        self.built_value@
    }

    pub closed spec fn spec_previous_context(&self) -> ReadableType {
        self.previous_crawler_context
    }

    /// An object without properties, whose closing brace is still to come.
    pub fn new() -> (r: ReadingObject)
        ensures
            !r.spec_finalized(),
            r.spec_value() == Seq::<(Seq<char>, JsonValue)>::empty(),
            r.spec_previous_context() == ReadableType::Nothing,
    {
        ReadingObject {
            ending_curly_brace_registered: false,
            built_value: JsonObject::new(),
            previous_crawler_context: ReadableType::Nothing,
        }
    }

    /// The object read, once its closing brace has been met.
    pub fn built_value(&mut self) -> (o: JsonObject)
        requires
            old(self).spec_finalized(),
        ensures
            o@ == old(self).spec_value(),
            final(self).spec_finalized() == old(self).spec_finalized(),
            final(self).spec_value() == old(self).spec_value(),
            final(self).spec_previous_context() == old(self).spec_previous_context(),
    {
        self.built_value.deep_clone()
    }

    /// Notes the closing brace; it may be met only once.
    pub fn register_ending_curly_brace(&mut self)
        requires
            !old(self).spec_finalized(),
        ensures
            final(self).spec_finalized(),
            final(self).spec_value() == old(self).spec_value(),
            final(self).spec_previous_context() == old(self).spec_previous_context(),
    {
        self.ending_curly_brace_registered = true;
    }

    /// Adds a property after the others read so far.
    pub fn add_property(&mut self, key: JsonPropertyKey, val: JsonPropertyValue)
        ensures
            final(self).spec_value() == old(self).spec_value().push((key@, val@)),
            final(self).spec_finalized() == old(self).spec_finalized(),
            final(self).spec_previous_context() == old(self).spec_previous_context(),
    {
        self.built_value.add_property(key, val);
    }
}

impl IReadingObjectBase for ReadingObject {
    open spec fn spec_previous_crawler_context(&self) -> ReadableType {
        self.spec_previous_context()
    }

    closed spec fn spec_with_previous_crawler_context(&self, previous: ReadableType) -> Self {
        ReadingObject { previous_crawler_context: previous, ..*self }
    }

    /// Whether the closing brace has been met.
    fn is_finalized(&self) -> (r: bool)
        ensures
            r == self.spec_finalized(),
    {
        self.ending_curly_brace_registered
    }

    /// What the crawler was reading before this object began.
    fn get_previous_crawler_context(&self) -> (r: ReadableType) {
        self.previous_crawler_context
    }

    fn set_previous_crawler_context(&mut self, new_type: ReadableType)
        ensures
            final(self).spec_finalized() == old(self).spec_finalized(),
            final(self).spec_value() == old(self).spec_value(),
    {
        self.previous_crawler_context = new_type;
    }
}

impl std::default::Default for ReadingObject {
    fn default() -> (r: Self)
        ensures
            !r.spec_finalized(),
            r.spec_value() == Seq::<(Seq<char>, JsonValue)>::empty(),
            r.spec_previous_context() == ReadableType::Nothing,
    {
        ReadingObject::new()
    }
}

} // verus!
