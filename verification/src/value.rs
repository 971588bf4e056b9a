//! Dynamically-typed property values and mappings from property names to them.

use vstd::prelude::*;
use vstd::hash_map::StringHashMap;

verus! {

/// What a dynamically-typed value holds, as far as classification can tell:
/// a boolean, a byte sequence, a signed 16-bit integer, or something of
/// another type.
pub enum TypedValue {
    Bool(bool),
    Bytes(Seq<u8>),
    Int16(i16),
    Other,
}

impl TypedValue {
    /// The boolean held, if the value is a boolean.
    pub open spec fn as_bool(self) -> Option<bool> {
        match self {
            TypedValue::Bool(b) => Some(b),
            _ => None,
        }
    }

    /// The bytes held, if the value is a byte sequence.
    pub open spec fn as_bytes(self) -> Option<Seq<u8>> {
        match self {
            TypedValue::Bytes(bytes) => Some(bytes),
            _ => None,
        }
    }

    /// The integer held, if the value is a signed 16-bit integer.
    pub open spec fn as_i16(self) -> Option<i16> {
        match self {
            TypedValue::Int16(n) => Some(n),
            _ => None,
        }
    }
}

/// The boolean that `entries` maps `name` to; `None` where the name is absent
/// or its value is no boolean.
pub open spec fn bool_entry(entries: Map<Seq<char>, TypedValue>, name: Seq<char>) -> Option<bool> {
    if entries.contains_key(name) {
        entries[name].as_bool()
    } else {
        None
    }
}

/// The bytes that `entries` maps `name` to; `None` where the name is absent or
/// its value is no byte sequence.
pub open spec fn bytes_entry(entries: Map<Seq<char>, TypedValue>, name: Seq<char>) -> Option<
    Seq<u8>,
> {
    if entries.contains_key(name) {
        entries[name].as_bytes()
    } else {
        None
    }
}

/// The integer that `entries` maps `name` to; `None` where the name is absent
/// or its value is no signed 16-bit integer.
pub open spec fn i16_entry(entries: Map<Seq<char>, TypedValue>, name: Seq<char>) -> Option<i16> {
    if entries.contains_key(name) {
        entries[name].as_i16()
    } else {
        None
    }
}

/// A dynamically-typed property value.
#[derive(Clone, Debug, PartialEq, Eq)]
pub enum PropertyValue {
    Bool(bool),
    Bytes(Vec<u8>),
    Int16(i16),
    /// A value of any type that no known property has.
    Other,
}

impl View for PropertyValue {
    type V = TypedValue;

    open spec fn view(&self) -> TypedValue {
        match *self {
            PropertyValue::Bool(b) => TypedValue::Bool(b),
            PropertyValue::Bytes(bytes) => TypedValue::Bytes(bytes@),
            PropertyValue::Int16(n) => TypedValue::Int16(n),
            PropertyValue::Other => TypedValue::Other,
        }
    }
}

impl PropertyValue {
    /// Checked downcast to a boolean.
    pub fn as_bool(&self) -> (value: Option<bool>)
        ensures
            value == self@.as_bool(),
    {
        match self {
            PropertyValue::Bool(b) => Some(*b),
            _ => None,
        }
    }

    /// Checked downcast to a byte sequence.
    pub fn as_bytes(&self) -> (value: Option<&Vec<u8>>)
        ensures
            value is Some <==> self@.as_bytes() is Some,
            value matches Some(bytes) ==> self@.as_bytes() == Some(bytes@),
    {
        match self {
            PropertyValue::Bytes(bytes) => Some(bytes),
            _ => None,
        }
    }

    /// Checked downcast to a signed 16-bit integer. A value of another integer
    /// type is not converted.
    pub fn as_i16(&self) -> (value: Option<i16>)
        ensures
            value == self@.as_i16(),
    {
        match self {
            PropertyValue::Int16(n) => Some(*n),
            _ => None,
        }
    }
}

/// A mapping from property names to dynamically-typed values that supports
/// type-checked lookups.
pub trait PropertySource {
    /// The mapping itself.
    spec fn entries(&self) -> Map<Seq<char>, TypedValue>;

    /// The boolean under `name`, if the name is present with a boolean value.
    fn bool_property(&self, name: &str) -> (value: Option<bool>)
        ensures
            value == bool_entry(self.entries(), name@),
    ;

    /// The bytes under `name`, if the name is present with a byte sequence.
    fn bytes_property(&self, name: &str) -> (value: Option<Vec<u8>>)
        ensures
            value is Some <==> bytes_entry(self.entries(), name@) is Some,
            value matches Some(bytes) ==> bytes_entry(self.entries(), name@) == Some(bytes@),
    ;

    /// The integer under `name`, if the name is present with a signed 16-bit
    /// integer.
    fn i16_property(&self, name: &str) -> (value: Option<i16>)
        ensures
            value == i16_entry(self.entries(), name@),
    ;
}

/// A mapping from property names to values, with unique names.
pub struct Properties {
    map: StringHashMap<PropertyValue>,
}

impl View for Properties {
    type V = Map<Seq<char>, TypedValue>;

    closed spec fn view(&self) -> Map<Seq<char>, TypedValue> {
        self.map@.map_values(|value: PropertyValue| value@)
    }
}

impl Properties {
    /// The empty mapping.
    pub fn new() -> (properties: Properties)
        ensures
            properties@ == Map::<Seq<char>, TypedValue>::empty(),
    {
        let properties = Properties { map: StringHashMap::new() };
        assert(properties@ =~= Map::<Seq<char>, TypedValue>::empty());
        properties
    }

    /// Maps `name` to `value`, in place of any value that it had.
    pub fn insert(&mut self, name: String, value: PropertyValue)
        ensures
            final(self)@ == old(self)@.insert(name@, value@),
    {
        self.map.insert(name, value);
        assert(self@ =~= old(self)@.insert(name@, value@));
    }

    /// The value under `name`, if there is one.
    pub fn get(&self, name: &str) -> (value: Option<&PropertyValue>)
        ensures
            value is Some <==> self@.contains_key(name@),
            value matches Some(v) ==> self@[name@] == v@,
    {
        self.map.get(name)
    }
}

impl PropertySource for Properties {
    open spec fn entries(&self) -> Map<Seq<char>, TypedValue> {
        self@
    }

    fn bool_property(&self, name: &str) -> (value: Option<bool>) {
        match self.get(name) {
            Some(value) => value.as_bool(),
            None => None,
        }
    }

    fn bytes_property(&self, name: &str) -> (value: Option<Vec<u8>>) {
        match self.get(name) {
            Some(value) => match value.as_bytes() {
                Some(bytes) => Some(bytes.clone()),
                None => None,
            },
            None => None,
        }
    }

    fn i16_property(&self, name: &str) -> (value: Option<i16>) {
        match self.get(name) {
            Some(value) => value.as_i16(),
            None => None,
        }
    }
}

} // verus!
