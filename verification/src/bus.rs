//! The boundary to the `dbus` crate: what a bus message exposes to
//! classification, and the calls that read it.
//!
//! A property's value is decoded only when it is looked up, and only as the
//! type that is asked for. A value of a type that classification has no use
//! for is therefore never decoded, and cannot make a notification fail.
//!
//! Nothing in this module is proved, except that [`ChangedProperties`] is a
//! [`PropertySource`]. Each other item states what the `dbus` source shows of
//! one call; the rest of the crate is verified against these statements.

use vstd::prelude::*;
use std::collections::HashMap;
use dbus::arg::{Iter, Variant};
use dbus::Message;
use crate::value::{PropertySource, TypedValue};

verus! {

/// `dbus::Message`, a bus message with its headers and arguments, carried
/// through as an opaque value.
#[verifier::external_type_specification]
#[verifier::external_body]
pub struct ExMessage(Message);

/// The property dictionary of a message: a `HashMap` from names to
/// `dbus::arg::Variant`s of `dbus::arg::Iter`, the positions of the values
/// inside the message.
///
/// Verus cannot take `Iter` in a signature or a field, so the dictionary is
/// held here and seen only through [`changed_entries`].
#[verifier::external_body]
pub struct ChangedProperties<'a> {
    map: HashMap<String, Variant<Iter<'a>>>,
}

/// The value of one property, not yet decoded: a `dbus::arg::Iter` that stands
/// at the value inside the message, seen only through [`value_at`].
#[verifier::external_body]
pub struct ChangedValue<'a> {
    position: Iter<'a>,
}

/// The object path in the header of `message`, as `dbus::Message::path`
/// returns it; `None` where the header has none.
pub uninterp spec fn message_path(message: Message) -> Option<Seq<char>>;

/// The property dictionary that `dbus::Message::read2` yields for `message`
/// when its first two arguments are read as a string and a dictionary from
/// strings to variants; `None` where `read2` reports a type mismatch.
pub uninterp spec fn message_properties(message: Message) -> Option<Map<Seq<char>, TypedValue>>;

/// What a property dictionary holds: under each name, the value at the
/// position kept for it, as [`value_at`] tells it.
pub uninterp spec fn changed_entries(properties: ChangedProperties<'_>) -> Map<
    Seq<char>,
    TypedValue,
>;

/// The value that an undecoded value stands at, told apart by its D-Bus type:
/// a boolean, an array of bytes, a signed 16-bit integer, or anything else.
pub uninterp spec fn value_at(value: ChangedValue<'_>) -> TypedValue;

/// Calls `dbus::Message::path` and copies the path into a `String`.
///
/// Claims that the result is the message's object path, and is `None` exactly
/// where the message has none.
#[verifier::external_body]
pub(crate) fn object_path(message: &Message) -> (path: Option<String>)
    ensures
        path is Some <==> message_path(*message) is Some,
        path matches Some(p) ==> message_path(*message) == Some(p@),
{
    match message.path() {
        Some(path) => Some(path.to_string()),
        None => None,
    }
}

/// Calls `dbus::Message::read2` for a string and a dictionary from strings to
/// variants, and keeps the dictionary.
///
/// Claims that the result is the dictionary that the message's arguments
/// decode to, and is `None` exactly where `read2` reports a type mismatch.
#[verifier::external_body]
pub(crate) fn read_properties<'a>(message: &'a Message) -> (properties: Option<
    ChangedProperties<'a>,
>)
    ensures
        properties is Some <==> message_properties(*message) is Some,
        properties matches Some(p) ==> message_properties(*message) == Some(changed_entries(p)),
{
    match message.read2::<&str, HashMap<String, Variant<Iter<'a>>>>() {
        Ok((_, map)) => Some(ChangedProperties { map }),
        Err(_) => None,
    }
}

/// Calls `HashMap::get` on the dictionary and copies the position found.
///
/// Claims that the result is `None` exactly where the dictionary lacks `name`,
/// and else stands at the value that the dictionary holds under `name`.
#[verifier::external_body]
fn lookup<'a>(properties: &ChangedProperties<'a>, name: &str) -> (value: Option<
    ChangedValue<'a>,
>)
    ensures
        value is Some <==> changed_entries(*properties).contains_key(name@),
        value matches Some(v) ==> changed_entries(*properties)[name@] == value_at(v),
{
    match properties.map.get(name) {
        Some(variant) => Some(ChangedValue { position: variant.0 }),
        None => None,
    }
}

/// Calls `dbus::arg::Iter::get` for a `bool`.
///
/// Claims that the result is the boolean that the value stands at, and `None`
/// where it stands at no boolean.
#[verifier::external_body]
fn get_bool(value: ChangedValue<'_>) -> (flag: Option<bool>)
    ensures
        flag == value_at(value).as_bool(),
{
    let mut position = value.position;
    position.get::<bool>()
}

/// Calls `dbus::arg::Iter::get` for a slice of bytes and copies the bytes.
///
/// Claims that the result holds the bytes of the array that the value stands
/// at, and is `None` where it stands at no array of bytes.
#[verifier::external_body]
fn get_bytes(value: ChangedValue<'_>) -> (bytes: Option<Vec<u8>>)
    ensures
        bytes is Some <==> value_at(value).as_bytes() is Some,
        bytes matches Some(b) ==> value_at(value).as_bytes() == Some(b@),
{
    let mut position = value.position;
    match position.get::<&[u8]>() {
        Some(bytes) => Some(bytes.to_vec()),
        None => None,
    }
}

/// Calls `dbus::arg::Iter::get` for an `i16`.
///
/// Claims that the result is the integer that the value stands at, and `None`
/// where it stands at no signed 16-bit integer, also where it stands at an
/// integer of another width.
#[verifier::external_body]
fn get_i16(value: ChangedValue<'_>) -> (level: Option<i16>)
    ensures
        level == value_at(value).as_i16(),
{
    let mut position = value.position;
    position.get::<i16>()
}

impl<'a> PropertySource for ChangedProperties<'a> {
    open spec fn entries(&self) -> Map<Seq<char>, TypedValue> {
        changed_entries(*self)
    }

    fn bool_property(&self, name: &str) -> (value: Option<bool>) {
        match lookup(self, name) {
            Some(found) => get_bool(found),
            None => None,
        }
    }

    fn bytes_property(&self, name: &str) -> (value: Option<Vec<u8>>) {
        match lookup(self, name) {
            Some(found) => get_bytes(found),
            None => None,
        }
    }

    fn i16_property(&self, name: &str) -> (value: Option<i16>) {
        match lookup(self, name) {
            Some(found) => get_i16(found),
            None => None,
        }
    }
}

} // verus!
