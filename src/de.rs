//! The reconstruction engine: a value answers shape requests, with checked
//! numeric coercion, name and length matching, and pull accessors for
//! sequences, maps and enums.
use vstd::prelude::*;

use crate::error::{Error, ErrorKind, Expected, Protocol};
use crate::fields::{extract, names_of, same_name, take_fields};
use crate::value::Value;

verus! {

/// The integer that a value holds, whatever its width, if it is an integer.
pub open spec fn int_of(v: Value) -> Option<int> {
    match v {
        Value::I8(x) => Some(x as int),
        Value::I16(x) => Some(x as int),
        Value::I32(x) => Some(x as int),
        Value::I64(x) => Some(x as int),
        Value::I128(x) => Some(x as int),
        Value::U8(x) => Some(x as int),
        Value::U16(x) => Some(x as int),
        Value::U32(x) => Some(x as int),
        Value::U64(x) => Some(x as int),
        Value::U128(x) => Some(x as int),
        _ => None,
    }
}

/// The bounds of an integer request, or an empty range for another shape.
pub open spec fn int_range(e: Expected) -> (int, int) {
    match e {
        Expected::I8 => (i8::MIN as int, i8::MAX as int),
        Expected::I16 => (i16::MIN as int, i16::MAX as int),
        Expected::I32 => (i32::MIN as int, i32::MAX as int),
        Expected::I64 => (i64::MIN as int, i64::MAX as int),
        Expected::I128 => (i128::MIN as int, i128::MAX as int),
        Expected::U8 => (0, u8::MAX as int),
        Expected::U16 => (0, u16::MAX as int),
        Expected::U32 => (0, u32::MAX as int),
        Expected::U64 => (0, u64::MAX as int),
        Expected::U128 => (0, u128::MAX as int),
        _ => (0, -1),
    }
}

/// What an integer request of shape `e` gets from `v`: the same number where
/// it fits, out of range where it does not, a type error where `v` holds no
/// integer.
pub open spec fn coerce_int(v: Value, e: Expected) -> Result<int, Error> {
    match int_of(v) {
        None => Err(Error(ErrorKind::InvalidType(e))),
        Some(x) => if int_range(e).0 <= x <= int_range(e).1 {
            Ok(x)
        } else {
            Err(Error(ErrorKind::OutOfRange))
        },
    }
}

/// `r` is the answer that `coerce_int` gives.
pub open spec fn int_request<T: Integer>(r: Result<T, Error>, v: Value, e: Expected) -> bool {
    coerce_int(v, e) == match r {
        Ok(x) => Ok(x as int),
        Err(err) => Err::<int, Error>(err),
    }
}

/// An integer widened to 128 bits, keeping its signedness.
enum Wide {
    Signed(i128),
    Unsigned(u128),
}

spec fn wide_int(w: Wide) -> int {
    match w {
        Wide::Signed(x) => x as int,
        Wide::Unsigned(x) => x as int,
    }
}

fn widen(v: &Value) -> (r: Option<Wide>)
    ensures
        r is None <==> int_of(*v) is None,
        r matches Some(w) ==> int_of(*v) == Some(wide_int(w)),
{
    match v {
        Value::I8(x) => Some(Wide::Signed(*x as i128)),
        Value::I16(x) => Some(Wide::Signed(*x as i128)),
        Value::I32(x) => Some(Wide::Signed(*x as i128)),
        Value::I64(x) => Some(Wide::Signed(*x as i128)),
        Value::I128(x) => Some(Wide::Signed(*x)),
        Value::U8(x) => Some(Wide::Unsigned(*x as u128)),
        Value::U16(x) => Some(Wide::Unsigned(*x as u128)),
        Value::U32(x) => Some(Wide::Unsigned(*x as u128)),
        Value::U64(x) => Some(Wide::Unsigned(*x as u128)),
        Value::U128(x) => Some(Wide::Unsigned(*x)),
        _ => None,
    }
}

/// A float as it was stored: its width and its bit pattern. Narrowing or
/// widening it is left to the caller.
#[derive(Debug, Clone, Copy, PartialEq, Eq)]
pub enum FloatBits {
    Single(u32),
    Double(u64),
}

/// The reconstruction engine for one value: each method is one shape request.
#[derive(Debug)]
pub struct Deserializer(pub Value);

impl Deserializer {
    pub fn new(value: Value) -> (r: Deserializer)
        ensures
            r.0 == value,
    {
        Deserializer(value)
    }

    pub fn deserialize_bool(self) -> (r: Result<bool, Error>)
        ensures
            r == match self.0 {
                Value::Bool(b) => Ok(b),
                _ => Err(Error(ErrorKind::InvalidType(Expected::Bool))),
            },
    {
        match self.0 {
            Value::Bool(b) => Ok(b),
            _ => Err(Error(ErrorKind::InvalidType(Expected::Bool))),
        }
    }

    /// A request for an `i8`: any integer that fits, else an error.
    pub fn deserialize_i8(self) -> (r: Result<i8, Error>)
        ensures
            int_request(r, self.0, Expected::I8),
    {
        match widen(&self.0) {
            None => Err(Error(ErrorKind::InvalidType(Expected::I8))),
            Some(Wide::Signed(x)) => {
                if -128i128 <= x && x <= 127i128 {
                    Ok(x as i8)
                } else {
                    Err(Error(ErrorKind::OutOfRange))
                }
            },
            Some(Wide::Unsigned(x)) => {
                if x <= 127u128 {
                    Ok(x as i8)
                } else {
                    Err(Error(ErrorKind::OutOfRange))
                }
            },
        }
    }

    /// A request for an `i16`: any integer that fits, else an error.
    pub fn deserialize_i16(self) -> (r: Result<i16, Error>)
        ensures
            int_request(r, self.0, Expected::I16),
    {
        match widen(&self.0) {
            None => Err(Error(ErrorKind::InvalidType(Expected::I16))),
            Some(Wide::Signed(x)) => {
                if -32768i128 <= x && x <= 32767i128 {
                    Ok(x as i16)
                } else {
                    Err(Error(ErrorKind::OutOfRange))
                }
            },
            Some(Wide::Unsigned(x)) => {
                if x <= 32767u128 {
                    Ok(x as i16)
                } else {
                    Err(Error(ErrorKind::OutOfRange))
                }
            },
        }
    }

    /// A request for an `i32`: any integer that fits, else an error.
    pub fn deserialize_i32(self) -> (r: Result<i32, Error>)
        ensures
            int_request(r, self.0, Expected::I32),
    {
        match widen(&self.0) {
            None => Err(Error(ErrorKind::InvalidType(Expected::I32))),
            Some(Wide::Signed(x)) => {
                if -2147483648i128 <= x && x <= 2147483647i128 {
                    Ok(x as i32)
                } else {
                    Err(Error(ErrorKind::OutOfRange))
                }
            },
            Some(Wide::Unsigned(x)) => {
                if x <= 2147483647u128 {
                    Ok(x as i32)
                } else {
                    Err(Error(ErrorKind::OutOfRange))
                }
            },
        }
    }

    /// A request for an `i64`: any integer that fits, else an error.
    pub fn deserialize_i64(self) -> (r: Result<i64, Error>)
        ensures
            int_request(r, self.0, Expected::I64),
    {
        match widen(&self.0) {
            None => Err(Error(ErrorKind::InvalidType(Expected::I64))),
            Some(Wide::Signed(x)) => {
                if -9223372036854775808i128 <= x && x <= 9223372036854775807i128 {
                    Ok(x as i64)
                } else {
                    Err(Error(ErrorKind::OutOfRange))
                }
            },
            Some(Wide::Unsigned(x)) => {
                if x <= 9223372036854775807u128 {
                    Ok(x as i64)
                } else {
                    Err(Error(ErrorKind::OutOfRange))
                }
            },
        }
    }

    /// A request for an `i128`: any integer that fits, else an error.
    pub fn deserialize_i128(self) -> (r: Result<i128, Error>)
        ensures
            int_request(r, self.0, Expected::I128),
    {
        match widen(&self.0) {
            None => Err(Error(ErrorKind::InvalidType(Expected::I128))),
            Some(Wide::Signed(x)) => {
                Ok(x)
            },
            Some(Wide::Unsigned(x)) => {
                if x <= 170141183460469231731687303715884105727u128 {
                    Ok(x as i128)
                } else {
                    Err(Error(ErrorKind::OutOfRange))
                }
            },
        }
    }

    /// A request for an `u8`: any integer that fits, else an error.
    pub fn deserialize_u8(self) -> (r: Result<u8, Error>)
        ensures
            int_request(r, self.0, Expected::U8),
    {
        match widen(&self.0) {
            None => Err(Error(ErrorKind::InvalidType(Expected::U8))),
            Some(Wide::Signed(x)) => {
                if 0i128 <= x && x <= 255i128 {
                    Ok(x as u8)
                } else {
                    Err(Error(ErrorKind::OutOfRange))
                }
            },
            Some(Wide::Unsigned(x)) => {
                if x <= 255u128 {
                    Ok(x as u8)
                } else {
                    Err(Error(ErrorKind::OutOfRange))
                }
            },
        }
    }

    /// A request for an `u16`: any integer that fits, else an error.
    pub fn deserialize_u16(self) -> (r: Result<u16, Error>)
        ensures
            int_request(r, self.0, Expected::U16),
    {
        match widen(&self.0) {
            None => Err(Error(ErrorKind::InvalidType(Expected::U16))),
            Some(Wide::Signed(x)) => {
                if 0i128 <= x && x <= 65535i128 {
                    Ok(x as u16)
                } else {
                    Err(Error(ErrorKind::OutOfRange))
                }
            },
            Some(Wide::Unsigned(x)) => {
                if x <= 65535u128 {
                    Ok(x as u16)
                } else {
                    Err(Error(ErrorKind::OutOfRange))
                }
            },
        }
    }

    /// A request for an `u32`: any integer that fits, else an error.
    pub fn deserialize_u32(self) -> (r: Result<u32, Error>)
        ensures
            int_request(r, self.0, Expected::U32),
    {
        match widen(&self.0) {
            None => Err(Error(ErrorKind::InvalidType(Expected::U32))),
            Some(Wide::Signed(x)) => {
                if 0i128 <= x && x <= 4294967295i128 {
                    Ok(x as u32)
                } else {
                    Err(Error(ErrorKind::OutOfRange))
                }
            },
            Some(Wide::Unsigned(x)) => {
                if x <= 4294967295u128 {
                    Ok(x as u32)
                } else {
                    Err(Error(ErrorKind::OutOfRange))
                }
            },
        }
    }

    /// A request for an `u64`: any integer that fits, else an error.
    pub fn deserialize_u64(self) -> (r: Result<u64, Error>)
        ensures
            int_request(r, self.0, Expected::U64),
    {
        match widen(&self.0) {
            None => Err(Error(ErrorKind::InvalidType(Expected::U64))),
            Some(Wide::Signed(x)) => {
                if 0i128 <= x && x <= 18446744073709551615i128 {
                    Ok(x as u64)
                } else {
                    Err(Error(ErrorKind::OutOfRange))
                }
            },
            Some(Wide::Unsigned(x)) => {
                if x <= 18446744073709551615u128 {
                    Ok(x as u64)
                } else {
                    Err(Error(ErrorKind::OutOfRange))
                }
            },
        }
    }

    /// A request for an `u128`: any integer that fits, else an error.
    pub fn deserialize_u128(self) -> (r: Result<u128, Error>)
        ensures
            int_request(r, self.0, Expected::U128),
    {
        match widen(&self.0) {
            None => Err(Error(ErrorKind::InvalidType(Expected::U128))),
            Some(Wide::Signed(x)) => {
                if x >= 0 {
                    Ok(x as u128)
                } else {
                    Err(Error(ErrorKind::OutOfRange))
                }
            },
            Some(Wide::Unsigned(x)) => {
                Ok(x)
            },
        }
    }

    /// A request for an `f32`: either float width is accepted, as stored.
    pub fn deserialize_f32(self) -> (r: Result<FloatBits, Error>)
        ensures
            r == match self.0 {
                Value::F32(b) => Ok(FloatBits::Single(b)),
                Value::F64(b) => Ok(FloatBits::Double(b)),
                _ => Err(Error(ErrorKind::InvalidType(Expected::F32))),
            },
    {
        match self.0 {
            Value::F32(b) => Ok(FloatBits::Single(b)),
            Value::F64(b) => Ok(FloatBits::Double(b)),
            _ => Err(Error(ErrorKind::InvalidType(Expected::F32))),
        }
    }

    /// A request for an `f64`: either float width is accepted, as stored.
    pub fn deserialize_f64(self) -> (r: Result<FloatBits, Error>)
        ensures
            r == match self.0 {
                Value::F32(b) => Ok(FloatBits::Single(b)),
                Value::F64(b) => Ok(FloatBits::Double(b)),
                _ => Err(Error(ErrorKind::InvalidType(Expected::F64))),
            },
    {
        match self.0 {
            Value::F32(b) => Ok(FloatBits::Single(b)),
            Value::F64(b) => Ok(FloatBits::Double(b)),
            _ => Err(Error(ErrorKind::InvalidType(Expected::F64))),
        }
    }

    pub fn deserialize_char(self) -> (r: Result<char, Error>)
        ensures
            r == match self.0 {
                Value::Char(c) => Ok(c),
                _ => Err(Error(ErrorKind::InvalidType(Expected::Char))),
            },
    {
        match self.0 {
            Value::Char(c) => Ok(c),
            _ => Err(Error(ErrorKind::InvalidType(Expected::Char))),
        }
    }

    pub fn deserialize_str(self) -> (r: Result<String, Error>)
        ensures
            r == match self.0 {
                Value::Str(s) => Ok(s),
                _ => Err(Error(ErrorKind::InvalidType(Expected::Str))),
            },
    {
        match self.0 {
            Value::Str(s) => Ok(s),
            _ => Err(Error(ErrorKind::InvalidType(Expected::Str))),
        }
    }

    pub fn deserialize_string(self) -> (r: Result<String, Error>)
        ensures
            r == match self.0 {
                Value::Str(s) => Ok(s),
                _ => Err(Error(ErrorKind::InvalidType(Expected::Str))),
            },
    {
        self.deserialize_str()
    }

    /// An identifier (a field or variant name) is requested as a string.
    pub fn deserialize_identifier(self) -> (r: Result<String, Error>)
        ensures
            r == match self.0 {
                Value::Str(s) => Ok(s),
                _ => Err(Error(ErrorKind::InvalidType(Expected::Str))),
            },
    {
        self.deserialize_str()
    }

    pub fn deserialize_bytes(self) -> (r: Result<Vec<u8>, Error>)
        ensures
            r == match self.0 {
                Value::Bytes(b) => Ok(b),
                _ => Err(Error(ErrorKind::InvalidType(Expected::Bytes))),
            },
    {
        match self.0 {
            Value::Bytes(b) => Ok(b),
            _ => Err(Error(ErrorKind::InvalidType(Expected::Bytes))),
        }
    }

    pub fn deserialize_byte_buf(self) -> (r: Result<Vec<u8>, Error>)
        ensures
            r == match self.0 {
                Value::Bytes(b) => Ok(b),
                _ => Err(Error(ErrorKind::InvalidType(Expected::Bytes))),
            },
    {
        self.deserialize_bytes()
    }

    /// Absence answers with none; presence hands its child to a nested request.
    pub fn deserialize_option(self) -> (r: Result<Option<Deserializer>, Error>)
        ensures
            r == match self.0 {
                Value::Absent => Ok(None),
                Value::Present(v) => Ok(Some(Deserializer(*v))),
                _ => Err(Error(ErrorKind::InvalidType(Expected::Optional))),
            },
    {
        match self.0 {
            Value::Absent => Ok(None),
            Value::Present(v) => Ok(Some(Deserializer(*v))),
            _ => Err(Error(ErrorKind::InvalidType(Expected::Optional))),
        }
    }

    pub fn deserialize_unit(self) -> (r: Result<(), Error>)
        ensures
            r == match self.0 {
                Value::Unit => Ok(()),
                _ => Err(Error(ErrorKind::InvalidType(Expected::Unit))),
            },
    {
        match self.0 {
            Value::Unit => Ok(()),
            _ => Err(Error(ErrorKind::InvalidType(Expected::Unit))),
        }
    }

    /// A named empty value whose name is exactly `name`.
    pub fn deserialize_unit_struct(self, name: &str) -> (r: Result<(), Error>)
        ensures
            r == match self.0 {
                Value::UnitStruct(n) => if n@ == name@ {
                    Ok(())
                } else {
                    Err(Error(ErrorKind::NameMismatch))
                },
                _ => Err(Error(ErrorKind::InvalidType(Expected::UnitStruct))),
            },
    {
        match self.0 {
            Value::UnitStruct(n) => if same_name(&n, name) {
                Ok(())
            } else {
                Err(Error(ErrorKind::NameMismatch))
            },
            _ => Err(Error(ErrorKind::InvalidType(Expected::UnitStruct))),
        }
    }

    /// A newtype struct named exactly `name` hands its child to a nested request.
    pub fn deserialize_newtype_struct(self, name: &str) -> (r: Result<Deserializer, Error>)
        ensures
            r == match self.0 {
                Value::NewtypeStruct(n, v) => if n@ == name@ {
                    Ok(Deserializer(*v))
                } else {
                    Err(Error(ErrorKind::NameMismatch))
                },
                _ => Err(Error(ErrorKind::InvalidType(Expected::NewtypeStruct))),
            },
    {
        match self.0 {
            Value::NewtypeStruct(n, v) => if same_name(&n, name) {
                Ok(Deserializer(*v))
            } else {
                Err(Error(ErrorKind::NameMismatch))
            },
            _ => Err(Error(ErrorKind::InvalidType(Expected::NewtypeStruct))),
        }
    }
}

/// Hands out the children of a sequence-like value one at a time, in order.
pub struct SeqAccessor {
    elements: Vec<Value>,
    pos: usize,
}

impl View for SeqAccessor {
    type V = Seq<Value>;

    /// The elements not yet handed out.
    closed spec fn view(&self) -> Seq<Value> {
        if self.pos <= self.elements.len() {
            self.elements@.subrange(self.pos as int, self.elements.len() as int)
        } else {
            Seq::empty()
        }
    }
}

impl SeqAccessor {
    pub fn new(elements: Vec<Value>) -> (r: SeqAccessor)
        ensures
            r@ == elements@,
    {
        let r = SeqAccessor { elements, pos: 0 };
        assert(r@ =~= r.elements@);
        r
    }

    /// The next element, or none once all have been handed out.
    pub fn next_element(&mut self) -> (r: Option<Deserializer>)
        ensures
            old(self)@.len() == 0 ==> r is None && final(self)@ == old(self)@,
            old(self)@.len() > 0 ==> r == Some(Deserializer(old(self)@[0])) && final(self)@
                == old(self)@.drop_first(),
    {
        if self.pos >= self.elements.len() {
            return None;
        }
        let ghost before = self.elements@;
        let mut v = Value::Unit;
        std::mem::swap(&mut v, &mut self.elements[self.pos]);
        self.pos = self.pos + 1;
        assert(self@ =~= before.subrange(self.pos - 1, before.len() as int).drop_first());
        Some(Deserializer(v))
    }

    /// How many elements are left.
    pub fn remaining(&self) -> (r: usize)
        ensures
            r == self@.len(),
    {
        if self.pos <= self.elements.len() {
            self.elements.len() - self.pos
        } else {
            0
        }
    }
}

/// Hands out a map's entries key first, then value, one entry at a time.
pub struct MapAccessor {
    entries: Vec<(Value, Value)>,
    pos: usize,
    pending_value: Option<Value>,
}

impl View for MapAccessor {
    type V = Seq<(Value, Value)>;

    /// The entries whose keys are not yet handed out.
    closed spec fn view(&self) -> Seq<(Value, Value)> {
        if self.pos <= self.entries.len() {
            self.entries@.subrange(self.pos as int, self.entries.len() as int)
        } else {
            Seq::empty()
        }
    }
}

impl MapAccessor {
    /// The value of the entry whose key was handed out last, until it is taken.
    pub closed spec fn pending(&self) -> Option<Value> {
        self.pending_value
    }

    pub fn new(entries: Vec<(Value, Value)>) -> (r: MapAccessor)
        ensures
            r@ == entries@,
            r.pending() is None,
    {
        let r = MapAccessor { entries, pos: 0, pending_value: None };
        assert(r@ =~= r.entries@);
        r
    }

    /// The next key, keeping its value pending; none once the map is done.
    /// Asking again while a value is pending is a protocol violation.
    pub fn next_key(&mut self) -> (r: Result<Option<Deserializer>, Error>)
        ensures
            old(self).pending() is Some ==> r == Err::<Option<Deserializer>, Error>(
                Error(ErrorKind::ProtocolViolation(Protocol::KeyAfterKey)),
            ) && final(self)@ == old(self)@ && final(self).pending() == old(self).pending(),
            old(self).pending() is None && old(self)@.len() == 0 ==> r == Ok::<
                Option<Deserializer>,
                Error,
            >(None) && final(self)@ == old(self)@ && final(self).pending() is None,
            old(self).pending() is None && old(self)@.len() > 0 ==> r == Ok::<
                Option<Deserializer>,
                Error,
            >(Some(Deserializer(old(self)@[0].0))) && final(self).pending() == Some(
                old(self)@[0].1,
            ) && final(self)@ == old(self)@.drop_first(),
    {
        if self.pending_value.is_some() {
            return Err(Error(ErrorKind::ProtocolViolation(Protocol::KeyAfterKey)));
        }
        if self.pos >= self.entries.len() {
            return Ok(None);
        }
        let ghost before = self.entries@;
        let mut e = (Value::Unit, Value::Unit);
        std::mem::swap(&mut e, &mut self.entries[self.pos]);
        self.pos = self.pos + 1;
        assert(self@ =~= before.subrange(self.pos - 1, before.len() as int).drop_first());
        let (k, v) = e;
        self.pending_value = Some(v);
        Ok(Some(Deserializer(k)))
    }

    /// The pending value. Asking with no value pending is a protocol violation.
    pub fn next_value(&mut self) -> (r: Result<Deserializer, Error>)
        ensures
            final(self)@ == old(self)@,
            final(self).pending() is None,
            r == match old(self).pending() {
                Some(v) => Ok(Deserializer(v)),
                None => Err(Error(ErrorKind::ProtocolViolation(Protocol::ValueWithoutKey))),
            },
    {
        match self.pending_value.take() {
            Some(v) => Ok(Deserializer(v)),
            None => Err(Error(ErrorKind::ProtocolViolation(Protocol::ValueWithoutKey))),
        }
    }

    /// How many entries are left.
    pub fn remaining(&self) -> (r: usize)
        ensures
            r == self@.len(),
    {
        if self.pos <= self.entries.len() {
            self.entries.len() - self.pos
        } else {
            0
        }
    }
}

/// What a struct request is answered with: the declared fields' values in
/// declared order, or, for a general map, its entries.
pub enum StructAccess {
    Fields(SeqAccessor),
    Entries(MapAccessor),
}

/// The tag of an enum-shaped value: its type name, ordinal and variant name.
pub open spec fn enum_tag(v: Value) -> Option<(String, u32, String)> {
    match v {
        Value::UnitVariant { name, variant_index, variant } => Some((name, variant_index, variant)),
        Value::NewtypeVariant { name, variant_index, variant, .. } => Some(
            (name, variant_index, variant),
        ),
        Value::TupleVariant { name, variant_index, variant, .. } => Some(
            (name, variant_index, variant),
        ),
        Value::StructVariant { name, variant_index, variant, .. } => Some(
            (name, variant_index, variant),
        ),
        _ => None,
    }
}

/// A tag matches a declared enum when the type names agree and the declared
/// variant at the stored ordinal bears the stored variant name.
pub open spec fn tag_matches(
    tag: (String, u32, String),
    name: Seq<char>,
    variants: Seq<Seq<char>>,
) -> bool {
    &&& tag.0@ == name
    &&& (tag.1 as int) < variants.len()
    &&& variants[tag.1 as int] == tag.2@
}

/// Matches an enum-shaped value against a declared enum.
pub struct EnumAccessor {
    name: String,
    variants: Vec<String>,
    value: Value,
}

impl EnumAccessor {
    pub closed spec fn name(&self) -> Seq<char> {
        self.name@
    }

    pub closed spec fn variants(&self) -> Seq<Seq<char>> {
        self.variants@.map_values(|s: String| s@)
    }

    pub closed spec fn value(&self) -> Value {
        self.value
    }

    pub fn new(name: &str, variants: &[&str], value: Value) -> (r: EnumAccessor)
        ensures
            r.name() == name@,
            r.variants() == names_of(variants@),
            r.value() == value,
    {
        let mut vs: Vec<String> = Vec::with_capacity(variants.len());
        let mut i: usize = 0;
        while i < variants.len()
            invariant
                i <= variants.len(),
                vs@.len() == i,
                forall|k: int| #![trigger vs@[k]] 0 <= k < i ==> vs@[k]@ == variants@[k]@,
            decreases variants.len() - i,
        {
            vs.push(variants[i].to_owned());
            i = i + 1;
        }
        let r = EnumAccessor { name: name.to_owned(), variants: vs, value };
        assert(r.variants() =~= names_of(variants@));
        r
    }

    /// On a match, the variant's name and an accessor for its payload.
    pub fn variant(self) -> (r: Result<(String, VariantAccessor), Error>)
        ensures
            match enum_tag(self.value()) {
                None => r == Err::<(String, VariantAccessor), Error>(
                    Error(ErrorKind::InvalidType(Expected::Enum)),
                ),
                Some(tag) => if tag_matches(tag, self.name(), self.variants()) {
                    r matches Ok((s, acc)) && s@ == tag.2@ && acc.0 == self.value()
                } else {
                    r == Err::<(String, VariantAccessor), Error>(Error(ErrorKind::NameMismatch))
                },
            },
    {
        let matched = match &self.value {
            Value::UnitVariant { name, variant_index, variant } => self.check_tag(
                name,
                *variant_index,
                variant,
            ),
            Value::NewtypeVariant { name, variant_index, variant, .. } => self.check_tag(
                name,
                *variant_index,
                variant,
            ),
            Value::TupleVariant { name, variant_index, variant, .. } => self.check_tag(
                name,
                *variant_index,
                variant,
            ),
            Value::StructVariant { name, variant_index, variant, .. } => self.check_tag(
                name,
                *variant_index,
                variant,
            ),
            _ => {
                return Err(Error(ErrorKind::InvalidType(Expected::Enum)));
            },
        };
        match matched {
            Some(s) => Ok((s, VariantAccessor(self.value))),
            None => Err(Error(ErrorKind::NameMismatch)),
        }
    }

    fn check_tag(&self, name: &String, variant_index: u32, variant: &String) -> (r: Option<String>)
        ensures
            r is Some <==> (name@ == self.name() && (variant_index as int) < self.variants().len()
                && self.variants()[variant_index as int] == variant@),
            r matches Some(s) ==> s@ == variant@,
    {
        if *name == self.name && (variant_index as usize) < self.variants.len()
            && self.variants[variant_index as usize] == *variant {
            Some(variant.clone())
        } else {
            None
        }
    }
}

/// The payload of a matched enum variant.
pub struct VariantAccessor(pub Value);

impl VariantAccessor {
    pub fn unit_variant(self) -> (r: Result<(), Error>)
        ensures
            r == match self.0 {
                Value::UnitVariant { .. } => Ok(()),
                _ => Err(Error(ErrorKind::InvalidType(Expected::UnitVariant))),
            },
    {
        match self.0 {
            Value::UnitVariant { .. } => Ok(()),
            _ => Err(Error(ErrorKind::InvalidType(Expected::UnitVariant))),
        }
    }

    pub fn newtype_variant(self) -> (r: Result<Deserializer, Error>)
        ensures
            r == match self.0 {
                Value::NewtypeVariant { value, .. } => Ok(Deserializer(*value)),
                _ => Err(Error(ErrorKind::InvalidType(Expected::NewtypeVariant))),
            },
    {
        match self.0 {
            Value::NewtypeVariant { value, .. } => Ok(Deserializer(*value)),
            _ => Err(Error(ErrorKind::InvalidType(Expected::NewtypeVariant))),
        }
    }

    /// The fields of a tuple variant, which must number exactly `len`.
    pub fn tuple_variant(self, len: usize) -> (r: Result<SeqAccessor, Error>)
        ensures
            match self.0 {
                Value::TupleVariant { fields, .. } => if fields.len() == len {
                    r matches Ok(acc) && acc@ == fields@
                } else {
                    r == Err::<SeqAccessor, Error>(
                        Error(ErrorKind::LengthMismatch { expected: len, found: fields.len() }),
                    )
                },
                _ => r == Err::<SeqAccessor, Error>(Error(ErrorKind::InvalidType(Expected::TupleVariant))),
            },
    {
        match self.0 {
            Value::TupleVariant { fields, .. } => if fields.len() == len {
                Ok(SeqAccessor::new(fields))
            } else {
                Err(Error(ErrorKind::LengthMismatch { expected: len, found: fields.len() }))
            },
            _ => Err(Error(ErrorKind::InvalidType(Expected::TupleVariant))),
        }
    }

    /// The values of the declared fields of a struct variant, in declared order.
    pub fn struct_variant(self, fields: &[&str]) -> (r: Result<SeqAccessor, Error>)
        ensures
            match self.0 {
                Value::StructVariant { fields: fs, .. } => match extract(fs@, names_of(fields@)) {
                    Ok(vs) => r matches Ok(acc) && acc@ == vs,
                    Err(n) => r matches Err(Error(ErrorKind::FieldNotFound(s))) && s@ == n,
                },
                _ => r == Err::<SeqAccessor, Error>(Error(ErrorKind::InvalidType(Expected::StructVariant))),
            },
    {
        match self.0 {
            Value::StructVariant { fields: fs, .. } => match take_fields(fs, fields) {
                Ok(vs) => Ok(SeqAccessor::new(vs)),
                Err(n) => Err(Error(ErrorKind::FieldNotFound(n))),
            },
            _ => Err(Error(ErrorKind::InvalidType(Expected::StructVariant))),
        }
    }
}

impl Deserializer {
    /// A variable-length request: any sequence or tuple.
    pub fn deserialize_seq(self) -> (r: Result<SeqAccessor, Error>)
        ensures
            match self.0 {
                Value::Sequence(xs) => r matches Ok(acc) && acc@ == xs@,
                Value::Tuple(xs) => r matches Ok(acc) && acc@ == xs@,
                _ => r == Err::<SeqAccessor, Error>(Error(ErrorKind::InvalidType(Expected::Sequence))),
            },
    {
        match self.0 {
            Value::Sequence(xs) => Ok(SeqAccessor::new(xs)),
            Value::Tuple(xs) => Ok(SeqAccessor::new(xs)),
            _ => Err(Error(ErrorKind::InvalidType(Expected::Sequence))),
        }
    }

    /// A fixed-length request: a sequence or tuple of exactly `len` elements.
    pub fn deserialize_tuple(self, len: usize) -> (r: Result<SeqAccessor, Error>)
        ensures
            match self.0 {
                Value::Sequence(xs) => if xs.len() == len {
                    r matches Ok(acc) && acc@ == xs@
                } else {
                    r == Err::<SeqAccessor, Error>(
                        Error(ErrorKind::LengthMismatch { expected: len, found: xs.len() }),
                    )
                },
                Value::Tuple(xs) => if xs.len() == len {
                    r matches Ok(acc) && acc@ == xs@
                } else {
                    r == Err::<SeqAccessor, Error>(
                        Error(ErrorKind::LengthMismatch { expected: len, found: xs.len() }),
                    )
                },
                _ => r == Err::<SeqAccessor, Error>(Error(ErrorKind::InvalidType(Expected::Tuple))),
            },
    {
        match self.0 {
            Value::Sequence(xs) => if xs.len() == len {
                Ok(SeqAccessor::new(xs))
            } else {
                Err(Error(ErrorKind::LengthMismatch { expected: len, found: xs.len() }))
            },
            Value::Tuple(xs) => if xs.len() == len {
                Ok(SeqAccessor::new(xs))
            } else {
                Err(Error(ErrorKind::LengthMismatch { expected: len, found: xs.len() }))
            },
            _ => Err(Error(ErrorKind::InvalidType(Expected::Tuple))),
        }
    }

    /// A named tuple request: the name must be `name` and the length `len`.
    pub fn deserialize_tuple_struct(self, name: &str, len: usize) -> (r: Result<SeqAccessor, Error>)
        ensures
            match self.0 {
                Value::TupleStruct(n, xs) => if n@ != name@ {
                    r == Err::<SeqAccessor, Error>(Error(ErrorKind::NameMismatch))
                } else if xs.len() != len {
                    r == Err::<SeqAccessor, Error>(
                        Error(ErrorKind::LengthMismatch { expected: len, found: xs.len() }),
                    )
                } else {
                    r matches Ok(acc) && acc@ == xs@
                },
                _ => r == Err::<SeqAccessor, Error>(Error(ErrorKind::InvalidType(Expected::TupleStruct))),
            },
    {
        match self.0 {
            Value::TupleStruct(n, xs) => if !same_name(&n, name) {
                Err(Error(ErrorKind::NameMismatch))
            } else if xs.len() != len {
                Err(Error(ErrorKind::LengthMismatch { expected: len, found: xs.len() }))
            } else {
                Ok(SeqAccessor::new(xs))
            },
            _ => Err(Error(ErrorKind::InvalidType(Expected::TupleStruct))),
        }
    }

    pub fn deserialize_map(self) -> (r: Result<MapAccessor, Error>)
        ensures
            match self.0 {
                Value::Mapping(es) => r matches Ok(acc) && acc@ == es@ && acc.pending() is None,
                _ => r == Err::<MapAccessor, Error>(Error(ErrorKind::InvalidType(Expected::Mapping))),
            },
    {
        match self.0 {
            Value::Mapping(es) => Ok(MapAccessor::new(es)),
            _ => Err(Error(ErrorKind::InvalidType(Expected::Mapping))),
        }
    }

    /// A struct request. A struct value named `name` answers with the values of
    /// the declared `fields` in declared order, each removed from the source; a
    /// general map answers with its entries.
    pub fn deserialize_struct(self, name: &str, fields: &[&str]) -> (r: Result<StructAccess, Error>)
        ensures
            match self.0 {
                Value::Struct(n, fs) => if n@ != name@ {
                    r == Err::<StructAccess, Error>(Error(ErrorKind::NameMismatch))
                } else {
                    match extract(fs@, names_of(fields@)) {
                        Ok(vs) => r matches Ok(StructAccess::Fields(acc)) && acc@ == vs,
                        Err(m) => r matches Err(Error(ErrorKind::FieldNotFound(s))) && s@ == m,
                    }
                },
                Value::Mapping(es) => r matches Ok(StructAccess::Entries(acc)) && acc@ == es@
                    && acc.pending() is None,
                _ => r == Err::<StructAccess, Error>(Error(ErrorKind::InvalidType(Expected::Struct))),
            },
    {
        match self.0 {
            Value::Struct(n, fs) => if !same_name(&n, name) {
                Err(Error(ErrorKind::NameMismatch))
            } else {
                match take_fields(fs, fields) {
                    Ok(vs) => Ok(StructAccess::Fields(SeqAccessor::new(vs))),
                    Err(m) => Err(Error(ErrorKind::FieldNotFound(m))),
                }
            },
            Value::Mapping(es) => Ok(StructAccess::Entries(MapAccessor::new(es))),
            _ => Err(Error(ErrorKind::InvalidType(Expected::Struct))),
        }
    }

    /// An enum request against the declared type name and variant names.
    pub fn deserialize_enum(self, name: &str, variants: &[&str]) -> (r: EnumAccessor)
        ensures
            r.name() == name@,
            r.variants() == names_of(variants@),
            r.value() == self.0,
    {
        EnumAccessor::new(name, variants, self.0)
    }
}

} // verus!
