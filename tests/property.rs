use drm::connector::Id as ConnectorId;
use drm::handle::{CrtcHandle, RawResourceHandle, ResourceHandle};
use drm::property::{EnumValue, EnumValues, Handle, Info, Value, ValueType};

fn entry(value: u64, name: &str) -> EnumValue {
    let mut bytes = [0u8; 32];
    bytes[..name.len()].copy_from_slice(name.as_bytes());
    EnumValue { value, name: bytes }
}

fn table() -> EnumValues {
    EnumValues::new(vec![entry(0, "Off"), entry(5, "On"), entry(2, "Auto")]).unwrap()
}

#[test]
fn boolean_round_trip() {
    assert_eq!(ValueType::Boolean.convert_value(1), Some(Value::Boolean(true)));
    assert_eq!(u64::from(Value::Boolean(true)), 1);
    assert_eq!(ValueType::Boolean.convert_value(0), Some(Value::Boolean(false)));
    assert_eq!(u64::from(Value::Boolean(false)), 0);
    assert_eq!(ValueType::Boolean.convert_value(7), Some(Value::Boolean(true)));
}

#[test]
fn ranges_reinterpret_bits() {
    let signed = ValueType::SignedRange(-10, 10);
    assert_eq!(signed.convert_value(u64::MAX), Some(Value::SignedRange(-1)));
    assert_eq!(u64::from(Value::SignedRange(-1)), u64::MAX);
    let unsigned = ValueType::UnsignedRange(0, 4);
    assert_eq!(unsigned.convert_value(100), Some(Value::UnsignedRange(100)));
    assert_eq!(u64::from(Value::UnsignedRange(100)), 100);
}

#[test]
fn opaque_values_pass_through() {
    assert_eq!(ValueType::Bitmask.convert_value(0b1010), Some(Value::Bitmask(0b1010)));
    assert_eq!(ValueType::Blob.convert_value(77), Some(Value::Blob(77)));
    assert_eq!(ValueType::Unknown.convert_value(3), Some(Value::Unknown(3)));
    assert_eq!(Value::Blob(77).to_raw(), 77);
}

#[test]
fn object_references() {
    let crtc = CrtcHandle::from_raw(RawResourceHandle::new(44).unwrap());
    assert_eq!(ValueType::CRTC.convert_value(44), Some(Value::CRTC(Some(crtc))));
    assert_eq!(ValueType::CRTC.convert_value(0), Some(Value::CRTC(None)));
    assert_eq!(u64::from(Value::CRTC(Some(crtc))), 44);
    assert_eq!(u64::from(Value::Connector(None)), 0);
    let con = ConnectorId::from_raw(RawResourceHandle::new(8).unwrap());
    assert_eq!(ValueType::Connector.convert_value(8), Some(Value::Connector(Some(con))));
    let p = Handle::from_raw(RawResourceHandle::new(9).unwrap());
    assert_eq!(ValueType::Property.convert_value(9), Some(Value::Property(Some(p))));
}

#[test]
fn enum_values_decode_by_stored_value() {
    let t = ValueType::Enum(table());
    assert_eq!(t.convert_value(5), Some(Value::Enum(entry(5, "On"))));
    assert_eq!(t.convert_value(2), Some(Value::Enum(entry(2, "Auto"))));
    assert_eq!(t.convert_value(1), None);
    assert_eq!(t.convert_value(24), None);
    assert_eq!(u64::from(Value::Enum(entry(2, "Auto"))), 2);
    assert_eq!(entry(2, "Auto").name(), b"Auto".to_vec());
}

#[test]
fn round_trip_every_kind() {
    let crtc = CrtcHandle::from_raw(RawResourceHandle::new(3).unwrap());
    let cases = vec![
        (ValueType::Unknown, Value::Unknown(12)),
        (ValueType::Boolean, Value::Boolean(true)),
        (ValueType::UnsignedRange(0, 9), Value::UnsignedRange(9)),
        (ValueType::SignedRange(-9, 9), Value::SignedRange(-9)),
        (ValueType::Enum(table()), Value::Enum(entry(0, "Off"))),
        (ValueType::Bitmask, Value::Bitmask(6)),
        (ValueType::Blob, Value::Blob(1)),
        (ValueType::CRTC, Value::CRTC(Some(crtc))),
        (ValueType::Plane, Value::Plane(None)),
    ];
    for (t, v) in cases {
        assert_eq!(t.convert_value(u64::from(v)), Some(v));
    }
}

#[test]
fn enum_table_is_capped() {
    let many: Vec<EnumValue> = (0..25).map(|i| entry(i, "x")).collect();
    let err = EnumValues::new(many).unwrap_err();
    assert_eq!(err.count, 25);
    let full: Vec<EnumValue> = (0..24).map(|i| entry(i, "x")).collect();
    assert!(EnumValues::new(full).is_ok());
}

#[test]
fn enum_table_lists_values() {
    let t = table();
    let (raws, entries) = t.values();
    assert_eq!(raws, vec![0, 5, 2]);
    assert_eq!(entries.len(), 3);
    assert_eq!(t.get_value_from_raw_value(0), Some(entry(0, "Off")));
    assert_eq!(entries[1].value(), 5);
}

#[test]
fn property_info_getters() {
    let mut name = [0u8; 32];
    name[..4].copy_from_slice(b"DPMS");
    let h = Handle::from_raw(RawResourceHandle::new(2).unwrap());
    let info = Info::new(h, name, ValueType::Boolean, true, false, 0x20);
    assert_eq!(info.name(), b"DPMS".to_vec());
    assert_eq!(info.handle(), h);
    assert!(info.mutable());
    assert!(!info.atomic());
    assert!(matches!(info.value_type(), ValueType::Boolean));
    assert_eq!(info.flags(), 0x20);
    let same = Info::new(h, name, ValueType::Boolean, true, false, 0x20);
    assert!(info == same);
    let other = Info::new(h, name, ValueType::Boolean, false, false, 0x20);
    assert!(info != other);
}

#[test]
fn value_type_equality() {
    assert!(ValueType::Enum(table()) == ValueType::Enum(table()));
    let shorter = EnumValues::new(vec![entry(0, "Off"), entry(5, "On")]).unwrap();
    assert!(ValueType::Enum(table()) != ValueType::Enum(shorter));
    let renamed = EnumValues::new(vec![entry(0, "Off"), entry(5, "On"), entry(2, "Auto2")]).unwrap();
    assert!(table() != renamed);
    assert!(table() == table());
    assert!(ValueType::SignedRange(-1, 1) == ValueType::SignedRange(-1, 1));
    assert!(ValueType::SignedRange(-1, 1) != ValueType::SignedRange(-1, 2));
    assert!(ValueType::Blob != ValueType::Bitmask);
}
