use serde_bridge::ser::{MapSerializer, SeqSerializer, Serializer, StructSerializer, TupleSerializer};
use serde_bridge::{Error, ErrorKind, Protocol, Value};

fn s(v: &str) -> String {
    v.to_string()
}

#[test]
fn test_to_value() {
    assert_eq!(Serializer.serialize_i32(128), Value::I32(128));
    assert_eq!(Serializer.serialize_u64(128), Value::U64(128));

    let mut st = Serializer.serialize_struct(s("TestStruct"), 5);
    st.serialize_field(s("a"), Serializer.serialize_bool(true));
    st.serialize_field(s("b"), Serializer.serialize_i32(1));
    st.serialize_field(s("c"), Serializer.serialize_u64(2));
    st.serialize_field(s("d"), Serializer.serialize_str("Hello, World!"));
    st.serialize_field(s("e"), Serializer.serialize_f64(4.5f64.to_bits()));
    assert_eq!(
        st.end(),
        Value::Struct(
            s("TestStruct"),
            vec![
                (s("a"), Value::Bool(true)),
                (s("b"), Value::I32(1)),
                (s("c"), Value::U64(2)),
                (s("d"), Value::Str(s("Hello, World!"))),
                (s("e"), Value::F64(4.5f64.to_bits())),
            ]
        )
    );
}

#[test]
fn record_projects_to_ordered_struct() {
    let mut st = StructSerializer::new(s("Rec"), 3);
    st.serialize_field(s("a"), Serializer.serialize_bool(true));
    st.serialize_field(s("b"), Serializer.serialize_i32(-5));
    st.serialize_field(s("c"), Serializer.serialize_str("hi"));
    assert_eq!(
        st.end(),
        Value::Struct(
            s("Rec"),
            vec![
                (s("a"), Value::Bool(true)),
                (s("b"), Value::I32(-5)),
                (s("c"), Value::Str(s("hi"))),
            ]
        )
    );
}

#[test]
fn none_projects_to_absent() {
    assert_eq!(Serializer.serialize_none(), Value::Absent);
    assert_eq!(
        Serializer.serialize_some(Value::I32(3)),
        Value::Present(Box::new(Value::I32(3)))
    );
}

#[test]
fn widths_are_kept() {
    assert_eq!(Serializer.serialize_i8(-1), Value::I8(-1));
    assert_eq!(Serializer.serialize_u16(7), Value::U16(7));
    assert_eq!(Serializer.serialize_i128(-1 << 100), Value::I128(-1 << 100));
    assert_ne!(Serializer.serialize_i32(1), Value::I64(1));
}

#[test]
fn strings_and_bytes_are_copied() {
    assert_eq!(Serializer.serialize_str("hé"), Value::Str(s("hé")));
    assert_eq!(Serializer.serialize_bytes(&[1, 2, 3]), Value::Bytes(vec![1, 2, 3]));
    assert_eq!(Serializer.serialize_bytes(&[]), Value::Bytes(vec![]));
}

#[test]
fn sequence_and_tuple_keep_order() {
    let mut sq = SeqSerializer::new(None);
    sq.serialize_element(Value::U8(6));
    sq.serialize_element(Value::U8(7));
    assert_eq!(sq.end(), Value::Sequence(vec![Value::U8(6), Value::U8(7)]));

    let mut tp = TupleSerializer::new(3);
    tp.serialize_element(Value::U16(11));
    tp.serialize_element(Value::U16(12));
    tp.serialize_element(Value::U16(13));
    assert_eq!(
        tp.end(),
        Value::Tuple(vec![Value::U16(11), Value::U16(12), Value::U16(13)])
    );
}

#[test]
fn enum_shapes_carry_their_tag() {
    assert_eq!(
        Serializer.serialize_unit_variant(s("E"), 1, s("B")),
        Value::UnitVariant { name: s("E"), variant_index: 1, variant: s("B") }
    );
    let mut tv = Serializer.serialize_tuple_variant(s("E"), 2, s("T"), 2);
    tv.serialize_field(Value::U8(1));
    tv.serialize_field(Value::U8(2));
    assert_eq!(
        tv.end(),
        Value::TupleVariant {
            name: s("E"),
            variant_index: 2,
            variant: s("T"),
            fields: vec![Value::U8(1), Value::U8(2)],
        }
    );
    let mut sv = Serializer.serialize_struct_variant(s("E"), 3, s("S"), 1);
    sv.serialize_field(s("r"), Value::U8(9));
    assert_eq!(
        sv.end(),
        Value::StructVariant {
            name: s("E"),
            variant_index: 3,
            variant: s("S"),
            fields: vec![(s("r"), Value::U8(9))],
        }
    );
    let mut ts = Serializer.serialize_tuple_struct(s("Rgb"), 3);
    ts.serialize_field(Value::U8(1));
    assert_eq!(ts.end(), Value::TupleStruct(s("Rgb"), vec![Value::U8(1)]));
    assert_eq!(
        Serializer.serialize_newtype_struct(s("Mm"), Value::U8(4)),
        Value::NewtypeStruct(s("Mm"), Box::new(Value::U8(4)))
    );
}

#[test]
fn repeated_struct_field_keeps_first_place() {
    let mut st = StructSerializer::new(s("S"), 2);
    st.serialize_field(s("x"), Value::U8(1));
    st.serialize_field(s("y"), Value::U8(2));
    st.serialize_field(s("x"), Value::U8(3));
    assert_eq!(
        st.end(),
        Value::Struct(s("S"), vec![(s("x"), Value::U8(3)), (s("y"), Value::U8(2))])
    );
}

#[test]
fn map_keeps_insertion_order_and_unique_keys() {
    let mut m = MapSerializer::new(Some(2));
    m.serialize_key(Value::Str(s("b"))).unwrap();
    m.serialize_value(Value::U8(1)).unwrap();
    m.serialize_key(Value::Str(s("a"))).unwrap();
    m.serialize_value(Value::U8(2)).unwrap();
    m.serialize_key(Value::Str(s("b"))).unwrap();
    m.serialize_value(Value::U8(3)).unwrap();
    assert_eq!(
        m.end(),
        Value::Mapping(vec![
            (Value::Str(s("b")), Value::U8(3)),
            (Value::Str(s("a")), Value::U8(2)),
        ])
    );
}

#[test]
fn map_serializer_reports_protocol_violations() {
    let mut m = MapSerializer::new(None);
    assert_eq!(
        m.serialize_value(Value::U8(1)),
        Err(Error(ErrorKind::ProtocolViolation(Protocol::ValueWithoutKey)))
    );
    m.serialize_key(Value::U8(1)).unwrap();
    assert_eq!(
        m.serialize_key(Value::U8(2)),
        Err(Error(ErrorKind::ProtocolViolation(Protocol::KeyAfterKey)))
    );
    m.serialize_value(Value::Unit).unwrap();
    assert_eq!(m.end(), Value::Mapping(vec![(Value::U8(1), Value::Unit)]));
}

#[test]
fn float_keys_are_refused() {
    let mut m = MapSerializer::new(None);
    assert_eq!(m.serialize_key(Value::F64(1.5f64.to_bits())), Err(Error(ErrorKind::NotHashable)));
    let nested = Value::Sequence(vec![Value::U8(1), Value::F32(0.5f32.to_bits())]);
    assert_eq!(m.serialize_key(nested), Err(Error(ErrorKind::NotHashable)));
    assert_eq!(m.serialize_key(Value::Str(s("k"))), Ok(()));
}
