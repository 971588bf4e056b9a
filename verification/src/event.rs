//! The typed events and the classification of a notification into one of them.

use vstd::prelude::*;
use dbus::Message;
use crate::bus::{message_path, message_properties, object_path, read_properties};
use crate::ids::{AdapterId, CharacteristicId, DeviceId};
use crate::value::{PropertySource, TypedValue};

verus! {

/// A change of state of a Bluetooth adapter, device or characteristic.
#[derive(Clone, Debug, PartialEq, Eq)]
pub enum BluetoothEvent {
    /// The adapter's power state changed.
    Powered { adapter: AdapterId, powered: bool },
    /// The adapter started or stopped discovering devices.
    Discovering { adapter: AdapterId, discovering: bool },
    /// The device connected or disconnected.
    Connected { device: DeviceId, connected: bool },
    /// Discovery of the device's GATT services completed, or was undone.
    ServicesResolved { device: DeviceId, services_resolved: bool },
    /// The characteristic's value was updated.
    Value { characteristic: CharacteristicId, value: Vec<u8> },
    /// The device's received signal strength changed.
    RSSI { device: DeviceId, rssi: i16 },
    /// The notification was well-formed and carried no known property with a
    /// value of its type.
    Unrecognized,
}

/// The mathematical content of a [`BluetoothEvent`]: object paths as character
/// sequences, the value as a byte sequence.
pub enum EventModel {
    Powered { adapter: Seq<char>, powered: bool },
    Discovering { adapter: Seq<char>, discovering: bool },
    Connected { device: Seq<char>, connected: bool },
    ServicesResolved { device: Seq<char>, services_resolved: bool },
    Value { characteristic: Seq<char>, value: Seq<u8> },
    RSSI { device: Seq<char>, rssi: i16 },
    Unrecognized,
}

impl View for BluetoothEvent {
    type V = EventModel;

    open spec fn view(&self) -> EventModel {
        match *self {
            BluetoothEvent::Powered { adapter, powered } => EventModel::Powered {
                adapter: adapter.object_path@,
                powered,
            },
            BluetoothEvent::Discovering { adapter, discovering } => EventModel::Discovering {
                adapter: adapter.object_path@,
                discovering,
            },
            BluetoothEvent::Connected { device, connected } => EventModel::Connected {
                device: device.object_path@,
                connected,
            },
            BluetoothEvent::ServicesResolved {
                device,
                services_resolved,
            } => EventModel::ServicesResolved { device: device.object_path@, services_resolved },
            BluetoothEvent::Value { characteristic, value } => EventModel::Value {
                characteristic: characteristic.object_path@,
                value: value@,
            },
            BluetoothEvent::RSSI { device, rssi } => EventModel::RSSI {
                device: device.object_path@,
                rssi,
            },
            BluetoothEvent::Unrecognized => EventModel::Unrecognized,
        }
    }
}

/// The number of known properties.
pub open spec fn known_count() -> int {
    6
}

/// The names of the known properties, by priority: the lower the rank, the
/// earlier the property is looked for.
pub open spec fn known_name(rank: int) -> Seq<char> {
    if rank == 0 {
        "Powered"@
    } else if rank == 1 {
        "Discovering"@
    } else if rank == 2 {
        "Connected"@
    } else if rank == 3 {
        "ServicesResolved"@
    } else if rank == 4 {
        "Value"@
    } else {
        "RSSI"@
    }
}

/// The event that the known property of the given rank gives for the object at
/// `object_path` when it has `value`; `None` where the value is not of the type
/// that the property must have.
pub open spec fn event_of(rank: int, object_path: Seq<char>, value: TypedValue) -> Option<
    EventModel,
> {
    if rank == 0 {
        match value {
            TypedValue::Bool(powered) => Some(EventModel::Powered { adapter: object_path, powered }),
            _ => None,
        }
    } else if rank == 1 {
        match value {
            TypedValue::Bool(discovering) => Some(
                EventModel::Discovering { adapter: object_path, discovering },
            ),
            _ => None,
        }
    } else if rank == 2 {
        match value {
            TypedValue::Bool(connected) => Some(
                EventModel::Connected { device: object_path, connected },
            ),
            _ => None,
        }
    } else if rank == 3 {
        match value {
            TypedValue::Bool(services_resolved) => Some(
                EventModel::ServicesResolved { device: object_path, services_resolved },
            ),
            _ => None,
        }
    } else if rank == 4 {
        match value {
            TypedValue::Bytes(value) => Some(
                EventModel::Value { characteristic: object_path, value },
            ),
            _ => None,
        }
    } else if rank == 5 {
        match value {
            TypedValue::Int16(rssi) => Some(EventModel::RSSI { device: object_path, rssi }),
            _ => None,
        }
    } else {
        None
    }
}

/// The event that the known property of the given rank contributes: `None`
/// where `properties` lacks the name or maps it to a value of another type.
pub open spec fn candidate(
    rank: int,
    object_path: Seq<char>,
    properties: Map<Seq<char>, TypedValue>,
) -> Option<EventModel> {
    if properties.contains_key(known_name(rank)) {
        event_of(rank, object_path, properties[known_name(rank)])
    } else {
        None
    }
}

/// The event for a notification about the object at `object_path` that carries
/// `properties`: that of the first known property, by rank, that is present
/// with a value of its type, and `EventModel::Unrecognized` where there is none.
pub open spec fn classified(
    object_path: Seq<char>,
    properties: Map<Seq<char>, TypedValue>,
) -> EventModel {
    if let Some(event) = candidate(0, object_path, properties) {
        event
    } else if let Some(event) = candidate(1, object_path, properties) {
        event
    } else if let Some(event) = candidate(2, object_path, properties) {
        event
    } else if let Some(event) = candidate(3, object_path, properties) {
        event
    } else if let Some(event) = candidate(4, object_path, properties) {
        event
    } else if let Some(event) = candidate(5, object_path, properties) {
        event
    } else {
        EventModel::Unrecognized
    }
}

/// The outcome for a message with the given object path and decoded
/// properties: no event where either is missing, else the classified event.
pub open spec fn notified(
    object_path: Option<Seq<char>>,
    properties: Option<Map<Seq<char>, TypedValue>>,
) -> Option<EventModel> {
    match (object_path, properties) {
        (Some(path), Some(entries)) => Some(classified(path, entries)),
        _ => None,
    }
}

impl BluetoothEvent {
    /// Classifies a "properties changed" message.
    ///
    /// Returns `None` where the message does not decode into an object path
    /// and a property dictionary: where its header has no path, or its
    /// arguments are not a string followed by a dictionary. Otherwise returns
    /// the event of the first known property that is present with a value of
    /// its type, or `BluetoothEvent::Unrecognized` where no known property is;
    /// a value of an unexpected type never makes the message fail.
    pub fn from(conn_msg: Message) -> (event: Option<BluetoothEvent>)
        ensures
            event is Some <==> notified(message_path(conn_msg), message_properties(conn_msg))
                is Some,
            event matches Some(e) ==> notified(
                message_path(conn_msg),
                message_properties(conn_msg),
            ) == Some(e@),
    {
        match read_properties(&conn_msg) {
            Some(properties) => match object_path(&conn_msg) {
                Some(path) => Some(BluetoothEvent::classify(path, &properties)),
                None => None,
            },
            None => None,
        }
    }

    /// Classifies a notification about the object at `object_path` that
    /// carries `properties`.
    ///
    /// The known properties are looked for in the order `Powered`,
    /// `Discovering`, `Connected`, `ServicesResolved`, `Value`, `RSSI`. The
    /// first that is present with a value of its type decides the event; one
    /// that is present with a value of another type is passed over.
    pub fn classify<P: PropertySource>(object_path: String, properties: &P) -> (event:
        BluetoothEvent)
        ensures
            event@ == classified(object_path@, properties.entries()),
    {
        if let Some(powered) = properties.bool_property("Powered") {
            return BluetoothEvent::Powered { adapter: AdapterId { object_path }, powered };
        }
        if let Some(discovering) = properties.bool_property("Discovering") {
            return BluetoothEvent::Discovering { adapter: AdapterId { object_path }, discovering };
        }
        if let Some(connected) = properties.bool_property("Connected") {
            return BluetoothEvent::Connected { device: DeviceId { object_path }, connected };
        }
        if let Some(services_resolved) = properties.bool_property("ServicesResolved") {
            return BluetoothEvent::ServicesResolved {
                device: DeviceId { object_path },
                services_resolved,
            };
        }
        if let Some(value) = properties.bytes_property("Value") {
            return BluetoothEvent::Value {
                characteristic: CharacteristicId { object_path },
                value,
            };
        }
        if let Some(rssi) = properties.i16_property("RSSI") {
            return BluetoothEvent::RSSI { device: DeviceId { object_path }, rssi };
        }
        BluetoothEvent::Unrecognized
    }
}

} // verus!
