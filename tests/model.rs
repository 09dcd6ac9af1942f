use serde_bridge::{Error, ErrorKind, Value};

fn s(v: &str) -> String {
    v.to_string()
}

#[test]
fn equality_is_structural_and_width_sensitive() {
    assert!(Value::I32(1).equals(&Value::I32(1)));
    assert!(!Value::I32(1).equals(&Value::I64(1)));
    let a = Value::Struct(s("S"), vec![(s("a"), Value::Sequence(vec![Value::U8(1)]))]);
    let b = Value::Struct(s("S"), vec![(s("a"), Value::Sequence(vec![Value::U8(1)]))]);
    let c = Value::Struct(s("S"), vec![(s("a"), Value::Sequence(vec![Value::U8(2)]))]);
    assert!(a.equals(&b));
    assert!(!a.equals(&c));
    let x = Value::Mapping(vec![(Value::Str(s("k")), Value::Unit)]);
    let y = Value::Mapping(vec![(Value::Str(s("k")), Value::Absent)]);
    assert!(!x.equals(&y));
    assert!(Value::Bytes(vec![1, 2]).equals(&Value::Bytes(vec![1, 2])));
    assert!(!Value::Bytes(vec![1, 2]).equals(&Value::Bytes(vec![1])));
}

#[test]
fn struct_field_order_matters_for_equality() {
    let a = Value::Struct(s("S"), vec![(s("a"), Value::Unit), (s("b"), Value::Unit)]);
    let b = Value::Struct(s("S"), vec![(s("b"), Value::Unit), (s("a"), Value::Unit)]);
    assert!(!a.equals(&b));
}

#[test]
fn floats_anywhere_are_not_hashable() {
    assert!(Value::Str(s("x")).is_hashable());
    assert!(!Value::F32(0).is_hashable());
    assert!(!Value::Present(Box::new(Value::F64(0))).is_hashable());
    let deep = Value::StructVariant {
        name: s("E"),
        variant_index: 0,
        variant: s("V"),
        fields: vec![(s("f"), Value::Tuple(vec![Value::U8(1), Value::F64(1)]))],
    };
    assert!(!deep.is_hashable());
    let map = Value::Mapping(vec![(Value::U8(1), Value::F32(3))]);
    assert!(!map.is_hashable());
    assert!(Value::Mapping(vec![(Value::U8(1), Value::Unit)]).is_hashable());
}

#[test]
fn custom_errors_carry_their_message() {
    let e = Error::custom(s("bad input"));
    assert_eq!(e, Error(ErrorKind::Custom(s("bad input"))));
    assert_eq!(e.kind(), &ErrorKind::Custom(s("bad input")));
    assert!(!e.is_protocol_violation());
}

#[test]
fn test_enum_size() {
    println!("Size is {}", std::mem::size_of::<Value>());
}
