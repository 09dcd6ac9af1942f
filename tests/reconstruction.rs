use serde_bridge::de::{Deserializer, FloatBits, StructAccess};
use serde_bridge::ser::Serializer;
use serde_bridge::{Error, ErrorKind, Expected, Protocol, Value};

fn s(v: &str) -> String {
    v.to_string()
}

fn de(v: Value) -> Deserializer {
    Deserializer::new(v)
}

fn test_struct() -> Value {
    Value::Struct(
        s("TestStruct"),
        vec![
            (s("a"), Value::Bool(true)),
            (s("b"), Value::I32(1)),
            (s("c"), Value::U64(2)),
            (s("d"), Value::Str(s("Hello, World!"))),
            (s("e"), Value::F64(4.5f64.to_bits())),
        ],
    )
}

#[test]
fn test_from_value() {
    assert_eq!(de(Value::Bool(true)).deserialize_bool(), Ok(true));

    let fields = ["a", "b", "c", "d", "e"];
    let acc = match de(test_struct()).deserialize_struct("TestStruct", &fields) {
        Ok(StructAccess::Fields(acc)) => acc,
        _ => panic!("must success"),
    };
    let mut acc = acc;
    assert_eq!(acc.remaining(), 5);
    assert_eq!(acc.next_element().unwrap().deserialize_bool(), Ok(true));
    assert_eq!(acc.next_element().unwrap().deserialize_i32(), Ok(1));
    assert_eq!(acc.next_element().unwrap().deserialize_u64(), Ok(2));
    assert_eq!(
        acc.next_element().unwrap().deserialize_string(),
        Ok(s("Hello, World!"))
    );
    match acc.next_element().unwrap().deserialize_f64() {
        Ok(FloatBits::Double(b)) => assert_eq!(f64::from_bits(b), 4.5),
        other => panic!("unexpected {:?}", other),
    }
    assert!(acc.next_element().is_none());
}

#[test]
fn record_reconstructs_from_its_projection() {
    let v = Value::Struct(
        s("Rec"),
        vec![
            (s("a"), Value::Bool(true)),
            (s("b"), Value::I32(-5)),
            (s("c"), Value::Str(s("hi"))),
        ],
    );
    let mut acc = match de(v).deserialize_struct("Rec", &["a", "b", "c"]) {
        Ok(StructAccess::Fields(acc)) => acc,
        _ => panic!("a struct value must answer with its fields"),
    };
    assert_eq!(acc.next_element().unwrap().deserialize_bool(), Ok(true));
    assert_eq!(acc.next_element().unwrap().deserialize_i32(), Ok(-5));
    assert_eq!(acc.next_element().unwrap().deserialize_str(), Ok(s("hi")));
    assert!(acc.next_element().is_none());
}

#[test]
fn absent_reconstructs_as_none() {
    assert!(matches!(de(Value::Absent).deserialize_option(), Ok(None)));
    let inner = match de(Value::Present(Box::new(Value::I32(4)))).deserialize_option() {
        Ok(Some(d)) => d,
        _ => panic!("presence must answer with its child"),
    };
    assert_eq!(inner.deserialize_i32(), Ok(4));
    assert!(matches!(
        de(Value::Unit).deserialize_option(),
        Err(Error(ErrorKind::InvalidType(Expected::Optional)))
    ));
}

#[test]
fn out_of_range_byte() {
    assert_eq!(de(Value::U16(300)).deserialize_u8(), Err(Error(ErrorKind::OutOfRange)));
    assert_eq!(de(Value::U16(300)).deserialize_u16(), Ok(300));
    assert_eq!(de(Value::I32(300)).deserialize_u8(), Err(Error(ErrorKind::OutOfRange)));
    assert_eq!(de(Value::I32(300)).deserialize_u16(), Ok(300));
}

#[test]
fn widening_succeeds() {
    assert_eq!(de(Value::U8(255)).deserialize_u16(), Ok(255));
    assert_eq!(de(Value::U8(255)).deserialize_u128(), Ok(255));
    assert_eq!(de(Value::I8(-128)).deserialize_i16(), Ok(-128));
    assert_eq!(de(Value::I64(i64::MIN)).deserialize_i128(), Ok(i64::MIN as i128));
    assert_eq!(de(Value::U64(u64::MAX)).deserialize_u128(), Ok(u64::MAX as u128));
    assert_eq!(de(Value::I32(i32::MAX)).deserialize_i64(), Ok(i32::MAX as i64));
}

#[test]
fn narrowing_is_checked() {
    assert_eq!(de(Value::I64(127)).deserialize_i8(), Ok(127));
    assert_eq!(de(Value::I64(128)).deserialize_i8(), Err(Error(ErrorKind::OutOfRange)));
    assert_eq!(de(Value::I64(-129)).deserialize_i8(), Err(Error(ErrorKind::OutOfRange)));
    assert_eq!(de(Value::I32(-1)).deserialize_u32(), Err(Error(ErrorKind::OutOfRange)));
    assert_eq!(de(Value::U32(u32::MAX)).deserialize_i32(), Err(Error(ErrorKind::OutOfRange)));
    assert_eq!(de(Value::U128(u128::MAX)).deserialize_i128(), Err(Error(ErrorKind::OutOfRange)));
    assert_eq!(de(Value::I128(-1)).deserialize_u128(), Err(Error(ErrorKind::OutOfRange)));
    assert_eq!(de(Value::U64(5)).deserialize_i8(), Ok(5));
    assert_eq!(
        de(Value::U64(u64::MAX)).deserialize_i64(),
        Err(Error(ErrorKind::OutOfRange))
    );
}

#[test]
fn non_integers_are_type_errors() {
    assert_eq!(
        de(Value::Str(s("1"))).deserialize_i32(),
        Err(Error(ErrorKind::InvalidType(Expected::I32)))
    );
    assert_eq!(
        de(Value::F64(0)).deserialize_u8(),
        Err(Error(ErrorKind::InvalidType(Expected::U8)))
    );
    assert_eq!(
        de(Value::I32(1)).deserialize_bool(),
        Err(Error(ErrorKind::InvalidType(Expected::Bool)))
    );
    assert_eq!(
        de(Value::Bool(true)).deserialize_char(),
        Err(Error(ErrorKind::InvalidType(Expected::Char)))
    );
}

#[test]
fn floats_come_back_as_stored() {
    assert_eq!(
        de(Value::F32(1.5f32.to_bits())).deserialize_f64(),
        Ok(FloatBits::Single(1.5f32.to_bits()))
    );
    assert_eq!(
        de(Value::F64(0.1f64.to_bits())).deserialize_f32(),
        Ok(FloatBits::Double(0.1f64.to_bits()))
    );
    assert_eq!(
        de(Value::I8(1)).deserialize_f32(),
        Err(Error(ErrorKind::InvalidType(Expected::F32)))
    );
}

#[test]
fn struct_fields_in_any_order() {
    let v = Value::Struct(
        s("S"),
        vec![
            (s("b"), Value::U8(2)),
            (s("a"), Value::U8(1)),
            (s("c"), Value::U8(3)),
        ],
    );
    let mut acc = match de(v).deserialize_struct("S", &["a", "b", "c"]) {
        Ok(StructAccess::Fields(acc)) => acc,
        _ => panic!("fields must be found"),
    };
    assert_eq!(acc.next_element().unwrap().deserialize_u8(), Ok(1));
    assert_eq!(acc.next_element().unwrap().deserialize_u8(), Ok(2));
    assert_eq!(acc.next_element().unwrap().deserialize_u8(), Ok(3));
    assert!(acc.next_element().is_none());
}

#[test]
fn struct_fields_are_consumed_once() {
    let v = Value::Struct(s("S"), vec![(s("a"), Value::U8(1))]);
    assert!(matches!(
        de(v).deserialize_struct("S", &["a", "a"]),
        Err(Error(ErrorKind::FieldNotFound(n))) if n == "a"
    ));
}

#[test]
fn struct_missing_field_and_wrong_name() {
    let v = Value::Struct(s("S"), vec![(s("a"), Value::U8(1))]);
    assert!(matches!(
        de(v).deserialize_struct("S", &["a", "z"]),
        Err(Error(ErrorKind::FieldNotFound(n))) if n == "z"
    ));
    let v = Value::Struct(s("S"), vec![(s("a"), Value::U8(1))]);
    assert!(matches!(
        de(v).deserialize_struct("T", &["a"]),
        Err(Error(ErrorKind::NameMismatch))
    ));
    assert!(matches!(
        de(Value::Unit).deserialize_struct("S", &["a"]),
        Err(Error(ErrorKind::InvalidType(Expected::Struct)))
    ));
}

#[test]
fn struct_from_map_uses_entries() {
    let v = Value::Mapping(vec![(Value::Str(s("a")), Value::U8(1))]);
    let mut acc = match de(v).deserialize_struct("S", &["a"]) {
        Ok(StructAccess::Entries(acc)) => acc,
        _ => panic!("a map must answer with its entries"),
    };
    let key = acc.next_key().unwrap().unwrap();
    assert_eq!(key.deserialize_identifier(), Ok(s("a")));
    assert_eq!(acc.next_value().unwrap().deserialize_u8(), Ok(1));
    assert!(matches!(acc.next_key(), Ok(None)));
}

#[test]
fn tuple_lengths_must_match() {
    let v = Value::Tuple(vec![Value::U8(1), Value::U8(2)]);
    assert!(matches!(
        de(v).deserialize_tuple(3),
        Err(Error(ErrorKind::LengthMismatch { expected: 3, found: 2 }))
    ));
    let v = Value::Sequence(vec![Value::U8(1), Value::U8(2)]);
    let mut acc = de(v).deserialize_tuple(2).unwrap();
    assert_eq!(acc.next_element().unwrap().deserialize_u8(), Ok(1));
    let v = Value::TupleStruct(s("Rgb"), vec![Value::U8(1)]);
    assert!(matches!(
        de(v).deserialize_tuple_struct("Rgb", 3),
        Err(Error(ErrorKind::LengthMismatch { expected: 3, found: 1 }))
    ));
    let v = Value::TupleStruct(s("Rgb"), vec![Value::U8(1)]);
    assert!(matches!(
        de(v).deserialize_tuple_struct("Hsv", 1),
        Err(Error(ErrorKind::NameMismatch))
    ));
    let v = Value::TupleStruct(s("Rgb"), vec![Value::U8(1)]);
    assert_eq!(de(v).deserialize_tuple_struct("Rgb", 1).unwrap().remaining(), 1);
}

#[test]
fn empty_sequence_is_exhausted_at_once() {
    let mut acc = de(Value::Sequence(vec![])).deserialize_seq().unwrap();
    assert_eq!(acc.remaining(), 0);
    assert!(acc.next_element().is_none());
    assert!(matches!(
        de(Value::Unit).deserialize_seq(),
        Err(Error(ErrorKind::InvalidType(Expected::Sequence)))
    ));
}

#[test]
fn unit_and_newtype_names_must_match() {
    assert_eq!(de(Value::Unit).deserialize_unit(), Ok(()));
    assert_eq!(de(Value::UnitStruct(s("U"))).deserialize_unit_struct("U"), Ok(()));
    assert_eq!(
        de(Value::UnitStruct(s("U"))).deserialize_unit_struct("V"),
        Err(Error(ErrorKind::NameMismatch))
    );
    let d = de(Value::NewtypeStruct(s("Mm"), Box::new(Value::U8(4))))
        .deserialize_newtype_struct("Mm")
        .unwrap();
    assert_eq!(d.deserialize_u8(), Ok(4));
    assert!(matches!(
        de(Value::NewtypeStruct(s("Mm"), Box::new(Value::U8(4)))).deserialize_newtype_struct("Cm"),
        Err(Error(ErrorKind::NameMismatch))
    ));
    assert_eq!(
        de(Value::Bytes(vec![1])).deserialize_byte_buf(),
        Ok(vec![1])
    );
}

fn impostor() -> Value {
    Value::UnitVariant { name: s("E"), variant_index: 1, variant: s("B") }
}

#[test]
fn enum_impostors_are_rejected() {
    assert!(matches!(
        de(impostor()).deserialize_enum("E2", &["A", "B"]).variant(),
        Err(Error(ErrorKind::NameMismatch))
    ));
    assert!(matches!(
        de(impostor()).deserialize_enum("E", &["A", "C"]).variant(),
        Err(Error(ErrorKind::NameMismatch))
    ));
    assert!(matches!(
        de(impostor()).deserialize_enum("E", &["A"]).variant(),
        Err(Error(ErrorKind::NameMismatch))
    ));
    assert!(matches!(
        de(Value::U8(1)).deserialize_enum("E", &["A"]).variant(),
        Err(Error(ErrorKind::InvalidType(Expected::Enum)))
    ));
    let (name, acc) = de(impostor()).deserialize_enum("E", &["A", "B"]).variant().unwrap();
    assert_eq!(name, "B");
    assert_eq!(acc.unit_variant(), Ok(()));
}

#[test]
fn enum_payloads() {
    let v = Value::NewtypeVariant {
        name: s("E"),
        variant_index: 0,
        variant: s("N"),
        value: Box::new(Value::U8(8)),
    };
    let (_, acc) = de(v).deserialize_enum("E", &["N"]).variant().unwrap();
    assert_eq!(acc.newtype_variant().unwrap().deserialize_u8(), Ok(8));

    let v = Value::TupleVariant {
        name: s("E"),
        variant_index: 0,
        variant: s("T"),
        fields: vec![Value::U8(1), Value::U8(2)],
    };
    let (_, acc) = de(v).deserialize_enum("E", &["T"]).variant().unwrap();
    assert!(matches!(
        acc.tuple_variant(3),
        Err(Error(ErrorKind::LengthMismatch { expected: 3, found: 2 }))
    ));

    let v = Value::StructVariant {
        name: s("E"),
        variant_index: 0,
        variant: s("S"),
        fields: vec![(s("g"), Value::U8(2)), (s("r"), Value::U8(1))],
    };
    let (_, acc) = de(v).deserialize_enum("E", &["S"]).variant().unwrap();
    let mut fields = acc.struct_variant(&["r", "g"]).unwrap();
    assert_eq!(fields.next_element().unwrap().deserialize_u8(), Ok(1));
    assert_eq!(fields.next_element().unwrap().deserialize_u8(), Ok(2));

    let v = Value::UnitVariant { name: s("E"), variant_index: 0, variant: s("U") };
    let (_, acc) = de(v).deserialize_enum("E", &["U"]).variant().unwrap();
    assert!(matches!(
        acc.newtype_variant(),
        Err(Error(ErrorKind::InvalidType(Expected::NewtypeVariant)))
    ));
}

#[test]
fn map_accessor_enforces_key_then_value() {
    let v = Value::Mapping(vec![
        (Value::Str(s("a")), Value::U8(1)),
        (Value::Str(s("b")), Value::U8(2)),
    ]);
    let mut acc = de(v).deserialize_map().unwrap();
    assert!(matches!(
        acc.next_value(),
        Err(Error(ErrorKind::ProtocolViolation(Protocol::ValueWithoutKey)))
    ));
    let k = acc.next_key().unwrap().unwrap();
    assert_eq!(k.deserialize_str(), Ok(s("a")));
    let err = acc.next_key().err().unwrap();
    assert_eq!(err, Error(ErrorKind::ProtocolViolation(Protocol::KeyAfterKey)));
    assert!(err.is_protocol_violation());
    assert_eq!(acc.next_value().unwrap().deserialize_u8(), Ok(1));
    assert_eq!(acc.remaining(), 1);
    let k = acc.next_key().unwrap().unwrap();
    assert_eq!(k.deserialize_str(), Ok(s("b")));
    assert_eq!(acc.next_value().unwrap().deserialize_u8(), Ok(2));
    assert!(matches!(acc.next_key(), Ok(None)));
}

#[test]
fn builders_and_requests_round_trip() {
    let mut m = Serializer.serialize_map(None);
    m.serialize_key(Serializer.serialize_str("k")).unwrap();
    m.serialize_value(Serializer.serialize_char('z')).unwrap();
    let mut acc = de(m.end()).deserialize_map().unwrap();
    assert_eq!(acc.next_key().unwrap().unwrap().deserialize_str(), Ok(s("k")));
    assert_eq!(acc.next_value().unwrap().deserialize_char(), Ok('z'));
    assert!(matches!(acc.next_key(), Ok(None)));

    let v = Serializer.serialize_newtype_variant(s("E"), 2, s("N"), Serializer.serialize_unit());
    let (name, payload) = de(v).deserialize_enum("E", &["A", "B", "N"]).variant().unwrap();
    assert_eq!(name, "N");
    assert_eq!(payload.newtype_variant().unwrap().deserialize_unit(), Ok(()));

    let v = Serializer.serialize_unit_struct(s("Marker"));
    assert_eq!(de(v).deserialize_unit_struct("Marker"), Ok(()));

    let v = Serializer.serialize_i128(i128::MIN);
    assert_eq!(de(v).deserialize_i128(), Ok(i128::MIN));
    assert_eq!(
        de(Value::Str(s("x"))).deserialize_u128(),
        Err(Error(ErrorKind::InvalidType(Expected::U128)))
    );
}
