//! Identifiers of the bus objects that events speak of.
//!
//! The three identifiers have the same shape, one object path, and are kept
//! apart as types so that an adapter cannot be passed for a device.

use vstd::prelude::*;

verus! {

/// Identifies a Bluetooth adapter by its bus object path.
#[derive(Clone, Debug, PartialEq, Eq, Hash)]
pub struct AdapterId {
    pub object_path: String,
}

/// Identifies a Bluetooth device by its bus object path.
#[derive(Clone, Debug, PartialEq, Eq, Hash)]
pub struct DeviceId {
    pub object_path: String,
}

/// Identifies a GATT characteristic by its bus object path.
#[derive(Clone, Debug, PartialEq, Eq, Hash)]
pub struct CharacteristicId {
    pub object_path: String,
}

} // verus!
