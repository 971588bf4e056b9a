//! Classification of Bluetooth "properties changed" bus notifications into
//! typed events.
//!
//! A notification names an object by its path and carries a mapping from
//! property names to dynamically-typed values. [`BluetoothEvent::from`]
//! recognises the first known property, in a fixed priority order, whose value
//! has the expected type, and reports it as one typed event.

pub mod bus;
pub mod event;
pub mod ids;
pub mod laws;
pub mod value;

pub use event::{BluetoothEvent, EventModel};
pub use ids::{AdapterId, CharacteristicId, DeviceId};
pub use value::{Properties, PropertySource, PropertyValue, TypedValue};
