//! Classification of notifications written as plain values.

use bluetooth_event::{
    AdapterId, BluetoothEvent, CharacteristicId, DeviceId, Properties, PropertySource,
    PropertyValue,
};

fn properties(entries: Vec<(&str, PropertyValue)>) -> Properties {
    let mut properties = Properties::new();
    for (name, value) in entries {
        properties.insert(name.to_string(), value);
    }
    properties
}

fn classify(path: &str, entries: Vec<(&str, PropertyValue)>) -> BluetoothEvent {
    BluetoothEvent::classify(path.to_string(), &properties(entries))
}

fn adapter(path: &str) -> AdapterId {
    AdapterId { object_path: path.to_string() }
}

fn device(path: &str) -> DeviceId {
    DeviceId { object_path: path.to_string() }
}

fn characteristic(path: &str) -> CharacteristicId {
    CharacteristicId { object_path: path.to_string() }
}

#[test]
fn lone_powered() {
    for powered in [true, false] {
        assert_eq!(
            classify("/org/bluez/hci0", vec![("Powered", PropertyValue::Bool(powered))]),
            BluetoothEvent::Powered { adapter: adapter("/org/bluez/hci0"), powered }
        );
    }
}

#[test]
fn lone_discovering() {
    assert_eq!(
        classify("/org/bluez/hci0", vec![("Discovering", PropertyValue::Bool(false))]),
        BluetoothEvent::Discovering { adapter: adapter("/org/bluez/hci0"), discovering: false }
    );
}

#[test]
fn lone_connected() {
    assert_eq!(
        classify("/org/bluez/hci0/dev_AA_BB", vec![("Connected", PropertyValue::Bool(true))]),
        BluetoothEvent::Connected { device: device("/org/bluez/hci0/dev_AA_BB"), connected: true }
    );
}

#[test]
fn lone_services_resolved() {
    assert_eq!(
        classify("/org/bluez/hci0/dev_AA_BB", vec![("ServicesResolved", PropertyValue::Bool(true))]),
        BluetoothEvent::ServicesResolved {
            device: device("/org/bluez/hci0/dev_AA_BB"),
            services_resolved: true,
        }
    );
}

#[test]
fn lone_value() {
    assert_eq!(
        classify(
            "/org/bluez/hci0/dev_AA_BB/char0001",
            vec![("Value", PropertyValue::Bytes(vec![0x01, 0x02]))]
        ),
        BluetoothEvent::Value {
            characteristic: characteristic("/org/bluez/hci0/dev_AA_BB/char0001"),
            value: vec![0x01, 0x02],
        }
    );
}

#[test]
fn lone_rssi() {
    for rssi in [-40i16, 0, i16::MIN, i16::MAX] {
        assert_eq!(
            classify("/org/bluez/hci0/dev_AA_BB", vec![("RSSI", PropertyValue::Int16(rssi))]),
            BluetoothEvent::RSSI { device: device("/org/bluez/hci0/dev_AA_BB"), rssi }
        );
    }
}

#[test]
fn lone_mistyped_property_is_unrecognized() {
    let wrong: Vec<(&str, PropertyValue)> = vec![
        ("Powered", PropertyValue::Int16(1)),
        ("Discovering", PropertyValue::Bytes(vec![1])),
        ("Connected", PropertyValue::Other),
        ("ServicesResolved", PropertyValue::Int16(0)),
        ("Value", PropertyValue::Bool(true)),
        ("Value", PropertyValue::Int16(258)),
        ("RSSI", PropertyValue::Bool(false)),
        ("RSSI", PropertyValue::Bytes(vec![0xd8, 0xff])),
        ("RSSI", PropertyValue::Other),
    ];
    for (name, value) in wrong {
        assert_eq!(classify("/org/bluez/hci0", vec![(name, value)]), BluetoothEvent::Unrecognized);
    }
}

#[test]
fn no_known_property_is_unrecognized() {
    assert_eq!(classify("/org/bluez/hci0", vec![]), BluetoothEvent::Unrecognized);
    assert_eq!(
        classify(
            "/org/bluez/hci0",
            vec![("Alias", PropertyValue::Other), ("powered", PropertyValue::Bool(true))]
        ),
        BluetoothEvent::Unrecognized
    );
}

#[test]
fn connected_wins_over_rssi() {
    let expected =
        BluetoothEvent::Connected { device: device("/org/bluez/hci0/dev_AA_BB"), connected: true };
    assert_eq!(
        classify(
            "/org/bluez/hci0/dev_AA_BB",
            vec![("Connected", PropertyValue::Bool(true)), ("RSSI", PropertyValue::Int16(-40))]
        ),
        expected
    );
    assert_eq!(
        classify(
            "/org/bluez/hci0/dev_AA_BB",
            vec![("RSSI", PropertyValue::Int16(-40)), ("Connected", PropertyValue::Bool(true))]
        ),
        expected
    );
}

#[test]
fn priority_follows_the_fixed_order() {
    let all = |skip: usize| -> Vec<(&str, PropertyValue)> {
        let mut entries = vec![
            ("RSSI", PropertyValue::Int16(-70)),
            ("Value", PropertyValue::Bytes(vec![9])),
            ("ServicesResolved", PropertyValue::Bool(false)),
            ("Connected", PropertyValue::Bool(false)),
            ("Discovering", PropertyValue::Bool(true)),
            ("Powered", PropertyValue::Bool(true)),
        ];
        entries.truncate(6 - skip);
        entries
    };
    assert_eq!(classify("/p", all(0)), BluetoothEvent::Powered { adapter: adapter("/p"), powered: true });
    assert_eq!(
        classify("/p", all(1)),
        BluetoothEvent::Discovering { adapter: adapter("/p"), discovering: true }
    );
    assert_eq!(
        classify("/p", all(2)),
        BluetoothEvent::Connected { device: device("/p"), connected: false }
    );
    assert_eq!(
        classify("/p", all(3)),
        BluetoothEvent::ServicesResolved { device: device("/p"), services_resolved: false }
    );
    assert_eq!(
        classify("/p", all(4)),
        BluetoothEvent::Value { characteristic: characteristic("/p"), value: vec![9] }
    );
    assert_eq!(classify("/p", all(5)), BluetoothEvent::RSSI { device: device("/p"), rssi: -70 });
}

#[test]
fn mistyped_property_is_passed_over() {
    assert_eq!(
        classify(
            "/p",
            vec![
                ("Powered", PropertyValue::Int16(1)),
                ("Discovering", PropertyValue::Other),
                ("Value", PropertyValue::Bytes(vec![])),
                ("RSSI", PropertyValue::Int16(-1)),
            ]
        ),
        BluetoothEvent::Value { characteristic: characteristic("/p"), value: vec![] }
    );
}

#[test]
fn classifying_twice_gives_equal_events() {
    let source =
        properties(vec![("Alias", PropertyValue::Other), ("Value", PropertyValue::Bytes(vec![1, 2, 3]))]);
    let first = BluetoothEvent::classify("/c".to_string(), &source);
    let second = BluetoothEvent::classify("/c".to_string(), &source);
    assert_eq!(first, second);
    assert_eq!(first.clone(), first);
}

#[test]
fn insert_replaces_the_value_under_a_name() {
    let mut source = Properties::new();
    assert_eq!(source.get("Powered"), None);
    source.insert("Powered".to_string(), PropertyValue::Int16(1));
    assert_eq!(source.get("Powered"), Some(&PropertyValue::Int16(1)));
    assert_eq!(source.bool_property("Powered"), None);
    source.insert("Powered".to_string(), PropertyValue::Bool(true));
    assert_eq!(source.get("Powered"), Some(&PropertyValue::Bool(true)));
    assert_eq!(source.bool_property("Powered"), Some(true));
    assert_eq!(source.get("Discovering"), None);
}

#[test]
fn typed_lookups_check_the_type() {
    let source = properties(vec![
        ("flag", PropertyValue::Bool(true)),
        ("bytes", PropertyValue::Bytes(vec![5, 6])),
        ("level", PropertyValue::Int16(-3)),
        ("other", PropertyValue::Other),
    ]);
    assert_eq!(source.bool_property("flag"), Some(true));
    assert_eq!(source.bool_property("bytes"), None);
    assert_eq!(source.bool_property("missing"), None);
    assert_eq!(source.bytes_property("bytes"), Some(vec![5, 6]));
    assert_eq!(source.bytes_property("level"), None);
    assert_eq!(source.bytes_property("missing"), None);
    assert_eq!(source.i16_property("level"), Some(-3));
    assert_eq!(source.i16_property("flag"), None);
    assert_eq!(source.i16_property("other"), None);
    assert_eq!(source.i16_property("missing"), None);
}

#[test]
fn checked_downcasts() {
    assert_eq!(PropertyValue::Bool(false).as_bool(), Some(false));
    assert_eq!(PropertyValue::Int16(0).as_bool(), None);
    assert_eq!(PropertyValue::Bytes(vec![1]).as_bytes(), Some(&vec![1u8]));
    assert_eq!(PropertyValue::Other.as_bytes(), None);
    assert_eq!(PropertyValue::Int16(-32768).as_i16(), Some(-32768));
    assert_eq!(PropertyValue::Bool(true).as_i16(), None);
    assert_eq!(PropertyValue::Bytes(vec![0, 1]).as_i16(), None);
}
