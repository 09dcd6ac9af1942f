//! The projection engine: constructors for every shape and builders that
//! collect children in order, keeping map keys and field names unique.
use vstd::prelude::*;

use crate::error::{Error, ErrorKind, Protocol};
use crate::fields::{field_insert, insert_field, names_unique};
use crate::value::{hashable, value_eq, Value};

verus! {

/// No two entries of an ordered map have structurally equal keys.
pub open spec fn keys_unique(es: Seq<(Value, Value)>) -> bool {
    forall|i: int, j: int|
        #![trigger es[i], es[j]]
        0 <= i < j < es.len() ==> !value_eq(es[i].0, es[j].0)
}

/// Every key of an ordered map can be hashed.
pub open spec fn keys_hashable(es: Seq<(Value, Value)>) -> bool {
    forall|i: int| #![trigger es[i]] 0 <= i < es.len() ==> hashable(es[i].0)
}

/// Whether some entry's key equals `k`.
pub open spec fn has_key(es: Seq<(Value, Value)>, k: Value) -> bool {
    exists|j: int| #![trigger es[j]] 0 <= j < es.len() && value_eq(es[j].0, k)
}

/// `j` is the first entry whose key equals `k`.
pub open spec fn first_key(es: Seq<(Value, Value)>, k: Value, j: int) -> bool {
    &&& 0 <= j < es.len()
    &&& value_eq(es[j].0, k)
    &&& forall|i: int| #![trigger es[i]] 0 <= i < j ==> !value_eq(es[i].0, k)
}

/// Inserting into an ordered map: an entry whose key equals `k` keeps its key
/// and its place and takes `v`; otherwise `(k, v)` is appended.
pub open spec fn map_insert(es: Seq<(Value, Value)>, k: Value, v: Value) -> Seq<(Value, Value)> {
    if has_key(es, k) {
        let j = choose|j: int| first_key(es, k, j);
        es.update(j, (es[j].0, v))
    } else {
        es.push((k, v))
    }
}

/// The projection engine: one constructor per shape. Children are projected
/// first and handed over as values.
pub struct Serializer;

impl Serializer {
    pub fn serialize_bool(self, v: bool) -> (r: Value)
        ensures
            r == Value::Bool(v),
    {
        Value::Bool(v)
    }

    pub fn serialize_i8(self, v: i8) -> (r: Value)
        ensures
            r == Value::I8(v),
    {
        Value::I8(v)
    }

    pub fn serialize_i16(self, v: i16) -> (r: Value)
        ensures
            r == Value::I16(v),
    {
        Value::I16(v)
    }

    pub fn serialize_i32(self, v: i32) -> (r: Value)
        ensures
            r == Value::I32(v),
    {
        Value::I32(v)
    }

    pub fn serialize_i64(self, v: i64) -> (r: Value)
        ensures
            r == Value::I64(v),
    {
        Value::I64(v)
    }

    pub fn serialize_i128(self, v: i128) -> (r: Value)
        ensures
            r == Value::I128(v),
    {
        Value::I128(v)
    }

    pub fn serialize_u8(self, v: u8) -> (r: Value)
        ensures
            r == Value::U8(v),
    {
        Value::U8(v)
    }

    pub fn serialize_u16(self, v: u16) -> (r: Value)
        ensures
            r == Value::U16(v),
    {
        Value::U16(v)
    }

    pub fn serialize_u32(self, v: u32) -> (r: Value)
        ensures
            r == Value::U32(v),
    {
        Value::U32(v)
    }

    pub fn serialize_u64(self, v: u64) -> (r: Value)
        ensures
            r == Value::U64(v),
    {
        Value::U64(v)
    }

    pub fn serialize_u128(self, v: u128) -> (r: Value)
        ensures
            r == Value::U128(v),
    {
        Value::U128(v)
    }

    /// Takes the bit pattern of an `f32`.
    pub fn serialize_f32(self, bits: u32) -> (r: Value)
        ensures
            r == Value::F32(bits),
    {
        Value::F32(bits)
    }

    /// Takes the bit pattern of an `f64`.
    pub fn serialize_f64(self, bits: u64) -> (r: Value)
        ensures
            r == Value::F64(bits),
    {
        Value::F64(bits)
    }

    pub fn serialize_char(self, v: char) -> (r: Value)
        ensures
            r == Value::Char(v),
    {
        Value::Char(v)
    }

    pub fn serialize_str(self, v: &str) -> (r: Value)
        ensures
            r is Str && r->Str_0@ == v@,
    {
        Value::Str(v.to_owned())
    }

    pub fn serialize_bytes(self, v: &[u8]) -> (r: Value)
        ensures
            r is Bytes && r->Bytes_0@ == v@,
    {
        Value::Bytes(vstd::slice::slice_to_vec(v))
    }

    pub fn serialize_none(self) -> (r: Value)
        ensures
            r == Value::Absent,
    {
        Value::Absent
    }

    pub fn serialize_some(self, value: Value) -> (r: Value)
        ensures
            r == Value::Present(Box::new(value)),
    {
        Value::Present(Box::new(value))
    }

    pub fn serialize_unit(self) -> (r: Value)
        ensures
            r == Value::Unit,
    {
        Value::Unit
    }

    pub fn serialize_unit_struct(self, name: String) -> (r: Value)
        ensures
            r == Value::UnitStruct(name),
    {
        Value::UnitStruct(name)
    }

    pub fn serialize_unit_variant(self, name: String, variant_index: u32, variant: String) -> (r:
        Value)
        ensures
            r == (Value::UnitVariant { name, variant_index, variant }),
    {
        Value::UnitVariant { name, variant_index, variant }
    }

    pub fn serialize_newtype_struct(self, name: String, value: Value) -> (r: Value)
        ensures
            r == Value::NewtypeStruct(name, Box::new(value)),
    {
        Value::NewtypeStruct(name, Box::new(value))
    }

    pub fn serialize_newtype_variant(
        self,
        name: String,
        variant_index: u32,
        variant: String,
        value: Value,
    ) -> (r: Value)
        ensures
            r == (Value::NewtypeVariant { name, variant_index, variant, value: Box::new(value) }),
    {
        Value::NewtypeVariant { name, variant_index, variant, value: Box::new(value) }
    }

    pub fn serialize_seq(self, len: Option<usize>) -> (r: SeqSerializer)
        ensures
            r@ == Seq::<Value>::empty(),
    {
        SeqSerializer::new(len)
    }

    pub fn serialize_tuple(self, len: usize) -> (r: TupleSerializer)
        ensures
            r@ == Seq::<Value>::empty(),
    {
        TupleSerializer::new(len)
    }

    pub fn serialize_tuple_struct(self, name: String, len: usize) -> (r: TupleStructSerializer)
        ensures
            r.name() == name,
            r@ == Seq::<Value>::empty(),
    {
        TupleStructSerializer::new(name, len)
    }

    pub fn serialize_tuple_variant(
        self,
        name: String,
        variant_index: u32,
        variant: String,
        len: usize,
    ) -> (r: TupleVariantSerializer)
        ensures
            r.tag() == (name, variant_index, variant),
            r@ == Seq::<Value>::empty(),
    {
        TupleVariantSerializer::new(name, variant_index, variant, len)
    }

    pub fn serialize_map(self, len: Option<usize>) -> (r: MapSerializer)
        ensures
            r.wf(),
            r.pending() is None,
            r@ == Seq::<(Value, Value)>::empty(),
    {
        MapSerializer::new(len)
    }

    pub fn serialize_struct(self, name: String, len: usize) -> (r: StructSerializer)
        ensures
            r.wf(),
            r.name() == name,
            r@ == Seq::<(String, Value)>::empty(),
    {
        StructSerializer::new(name, len)
    }

    pub fn serialize_struct_variant(
        self,
        name: String,
        variant_index: u32,
        variant: String,
        len: usize,
    ) -> (r: StructVariantSerializer)
        ensures
            r.wf(),
            r.tag() == (name, variant_index, variant),
            r@ == Seq::<(String, Value)>::empty(),
    {
        StructVariantSerializer::new(name, variant_index, variant, len)
    }
}

fn capacity_hint(len: Option<usize>) -> (r: usize)
    ensures
        r == match len {
            Some(n) => n,
            None => 0,
        },
{
    match len {
        Some(n) => n,
        None => 0,
    }
}

/// Builds a variable-length sequence, element by element, in order.
pub struct SeqSerializer {
    elements: Vec<Value>,
}

impl View for SeqSerializer {
    type V = Seq<Value>;

    closed spec fn view(&self) -> Seq<Value> {
        self.elements@
    }
}

impl SeqSerializer {
    /// `len` is only a capacity hint.
    pub fn new(len: Option<usize>) -> (r: Self)
        ensures
            r@ == Seq::<Value>::empty(),
    {
        SeqSerializer { elements: Vec::with_capacity(capacity_hint(len)) }
    }

    pub fn serialize_element(&mut self, value: Value)
        ensures
            final(self)@ == old(self)@.push(value),
    {
        self.elements.push(value);
    }

    pub fn end(self) -> (r: Value)
        ensures
            r is Sequence && r->Sequence_0@ == self@,
    {
        Value::Sequence(self.elements)
    }
}

/// Builds a tuple or fixed-size array, element by element, in order.
pub struct TupleSerializer {
    elements: Vec<Value>,
}

impl View for TupleSerializer {
    type V = Seq<Value>;

    closed spec fn view(&self) -> Seq<Value> {
        self.elements@
    }
}

impl TupleSerializer {
    pub fn new(len: usize) -> (r: Self)
        ensures
            r@ == Seq::<Value>::empty(),
    {
        TupleSerializer { elements: Vec::with_capacity(len) }
    }

    pub fn serialize_element(&mut self, value: Value)
        ensures
            final(self)@ == old(self)@.push(value),
    {
        self.elements.push(value);
    }

    pub fn end(self) -> (r: Value)
        ensures
            r is Tuple && r->Tuple_0@ == self@,
    {
        Value::Tuple(self.elements)
    }
}

/// Builds a named tuple, field by field, in order.
pub struct TupleStructSerializer {
    name: String,
    fields: Vec<Value>,
}

impl View for TupleStructSerializer {
    type V = Seq<Value>;

    closed spec fn view(&self) -> Seq<Value> {
        self.fields@
    }
}

impl TupleStructSerializer {
    pub closed spec fn name(&self) -> String {
        self.name
    }

    pub fn new(name: String, len: usize) -> (r: Self)
        ensures
            r.name() == name,
            r@ == Seq::<Value>::empty(),
    {
        TupleStructSerializer { name, fields: Vec::with_capacity(len) }
    }

    pub fn serialize_field(&mut self, value: Value)
        ensures
            final(self).name() == old(self).name(),
            final(self)@ == old(self)@.push(value),
    {
        self.fields.push(value);
    }

    pub fn end(self) -> (r: Value)
        ensures
            r matches Value::TupleStruct(n, fs) && n == self.name() && fs@ == self@,
    {
        Value::TupleStruct(self.name, self.fields)
    }
}

/// Builds a tuple variant of an enum, field by field, in order.
pub struct TupleVariantSerializer {
    name: String,
    variant_index: u32,
    variant: String,
    fields: Vec<Value>,
}

impl View for TupleVariantSerializer {
    type V = Seq<Value>;

    closed spec fn view(&self) -> Seq<Value> {
        self.fields@
    }
}

impl TupleVariantSerializer {
    /// The enum's name, the variant's ordinal and the variant's name.
    pub closed spec fn tag(&self) -> (String, u32, String) {
        (self.name, self.variant_index, self.variant)
    }

    pub fn new(name: String, variant_index: u32, variant: String, len: usize) -> (r: Self)
        ensures
            r.tag() == (name, variant_index, variant),
            r@ == Seq::<Value>::empty(),
    {
        TupleVariantSerializer { name, variant_index, variant, fields: Vec::with_capacity(len) }
    }

    pub fn serialize_field(&mut self, value: Value)
        ensures
            final(self).tag() == old(self).tag(),
            final(self)@ == old(self)@.push(value),
    {
        self.fields.push(value);
    }

    pub fn end(self) -> (r: Value)
        ensures
            r matches Value::TupleVariant { name, variant_index, variant, fields } && (
            name,
            variant_index,
            variant,
            ) == self.tag() && fields@ == self@,
    {
        Value::TupleVariant {
            name: self.name,
            variant_index: self.variant_index,
            variant: self.variant,
            fields: self.fields,
        }
    }
}

/// The index of the entry whose key equals `key`, if any.
fn find_key(entries: &Vec<(Value, Value)>, key: &Value) -> (r: Option<usize>)
    ensures
        r is None <==> !has_key(entries@, *key),
        r matches Some(j) ==> first_key(entries@, *key, j as int),
{
    let mut j: usize = 0;
    while j < entries.len()
        invariant
            j <= entries.len(),
            forall|k: int| #![trigger entries@[k]] 0 <= k < j ==> !value_eq(entries@[k].0, *key),
        decreases entries.len() - j,
    {
        if entries[j].0.equals(key) {
            return Some(j);
        }
        j = j + 1;
    }
    None
}

/// Builds a general map from alternating keys and values. Keys stay unique and
/// in insertion order; a key holding a float is refused.
pub struct MapSerializer {
    pending_key: Option<Value>,
    entries: Vec<(Value, Value)>,
}

impl View for MapSerializer {
    type V = Seq<(Value, Value)>;

    closed spec fn view(&self) -> Seq<(Value, Value)> {
        self.entries@
    }
}

impl MapSerializer {
    /// The key given last, still waiting for its value.
    pub closed spec fn pending(&self) -> Option<Value> {
        self.pending_key
    }

    pub closed spec fn wf(&self) -> bool {
        &&& keys_unique(self.entries@)
        &&& keys_hashable(self.entries@)
        &&& self.pending_key matches Some(k) ==> hashable(k)
    }

    /// `len` is only a capacity hint.
    pub fn new(len: Option<usize>) -> (r: Self)
        ensures
            r.wf(),
            r.pending() is None,
            r@ == Seq::<(Value, Value)>::empty(),
    {
        MapSerializer { pending_key: None, entries: Vec::with_capacity(capacity_hint(len)) }
    }

    pub fn serialize_key(&mut self, key: Value) -> (r: Result<(), Error>)
        requires
            old(self).wf(),
        ensures
            final(self).wf(),
            old(self).pending() is Some ==> r == Err::<(), Error>(
                Error(ErrorKind::ProtocolViolation(Protocol::KeyAfterKey)),
            ) && *final(self) == *old(self),
            old(self).pending() is None && !hashable(key) ==> r == Err::<(), Error>(
                Error(ErrorKind::NotHashable),
            ) && *final(self) == *old(self),
            old(self).pending() is None && hashable(key) ==> r is Ok && final(self).pending()
                == Some(key) && final(self)@ == old(self)@,
    {
        if self.pending_key.is_some() {
            return Err(Error(ErrorKind::ProtocolViolation(Protocol::KeyAfterKey)));
        }
        if !key.is_hashable() {
            return Err(Error(ErrorKind::NotHashable));
        }
        self.pending_key = Some(key);
        Ok(())
    }

    pub fn serialize_value(&mut self, value: Value) -> (r: Result<(), Error>)
        requires
            old(self).wf(),
        ensures
            final(self).wf(),
            old(self).pending() is None ==> r == Err::<(), Error>(
                Error(ErrorKind::ProtocolViolation(Protocol::ValueWithoutKey)),
            ) && *final(self) == *old(self),
            old(self).pending() matches Some(k) ==> r is Ok && final(self).pending() is None
                && final(self)@ == map_insert(old(self)@, k, value),
    {
        let key = match self.pending_key.take() {
            Some(k) => k,
            None => {
                return Err(Error(ErrorKind::ProtocolViolation(Protocol::ValueWithoutKey)));
            },
        };
        let ghost es = self.entries@;
        match find_key(&self.entries, &key) {
            Some(j) => {
                proof {
                    assert(has_key(es, key));
                    let c = choose|c: int| first_key(es, key, c);
                    if c < j {
                        assert(!value_eq(es[c].0, key));
                    } else if j < c {
                        assert(!value_eq(es[j as int].0, key));
                    }
                }
                self.entries[j].1 = value;
                proof {
                    assert forall|a: int, b: int|
                        #![trigger self.entries@[a], self.entries@[b]]
                        0 <= a < b < self.entries@.len() implies !value_eq(
                        self.entries@[a].0,
                        self.entries@[b].0,
                    ) by {
                        assert(self.entries@[a].0 == es[a].0);
                        assert(self.entries@[b].0 == es[b].0);
                        assert(!value_eq(es[a].0, es[b].0));
                    }
                    assert forall|a: int|
                        #![trigger self.entries@[a]]
                        0 <= a < self.entries@.len() implies hashable(self.entries@[a].0) by {
                        assert(self.entries@[a].0 == es[a].0);
                        assert(hashable(es[a].0));
                    }
                    assert(self.entries@ =~= map_insert(es, key, value));
                }
            },
            None => {
                self.entries.push((key, value));
                proof {
                    assert forall|a: int, b: int|
                        #![trigger self.entries@[a], self.entries@[b]]
                        0 <= a < b < self.entries@.len() implies !value_eq(
                        self.entries@[a].0,
                        self.entries@[b].0,
                    ) by {
                        if b < es.len() {
                            assert(self.entries@[a] == es[a]);
                            assert(self.entries@[b] == es[b]);
                        } else {
                            assert(self.entries@[a] == es[a]);
                            assert(!value_eq(es[a].0, key));
                        }
                    }
                    assert forall|a: int|
                        #![trigger self.entries@[a]]
                        0 <= a < self.entries@.len() implies hashable(self.entries@[a].0) by {
                        if a < es.len() {
                            assert(self.entries@[a] == es[a]);
                        }
                    }
                }
            },
        }
        Ok(())
    }

    /// The finished map. A key still waiting for its value is dropped.
    pub fn end(self) -> (r: Value)
        ensures
            r is Mapping && r->Mapping_0@ == self@,
    {
        Value::Mapping(self.entries)
    }
}

/// Builds a named aggregate, field by field. Field names stay unique; a
/// repeated name takes the new value in its first place.
pub struct StructSerializer {
    name: String,
    fields: Vec<(String, Value)>,
}

impl View for StructSerializer {
    type V = Seq<(String, Value)>;

    closed spec fn view(&self) -> Seq<(String, Value)> {
        self.fields@
    }
}

impl StructSerializer {
    pub closed spec fn name(&self) -> String {
        self.name
    }

    pub open spec fn wf(&self) -> bool {
        names_unique(self@)
    }

    pub fn new(name: String, len: usize) -> (r: Self)
        ensures
            r.wf(),
            r.name() == name,
            r@ == Seq::<(String, Value)>::empty(),
    {
        StructSerializer { name, fields: Vec::with_capacity(len) }
    }

    pub fn serialize_field(&mut self, key: String, value: Value)
        requires
            old(self).wf(),
        ensures
            final(self).wf(),
            final(self).name() == old(self).name(),
            final(self)@ == field_insert(old(self)@, key, value),
    {
        insert_field(&mut self.fields, key, value);
    }

    pub fn end(self) -> (r: Value)
        ensures
            r matches Value::Struct(n, fs) && n == self.name() && fs@ == self@,
    {
        Value::Struct(self.name, self.fields)
    }
}

/// Builds a struct variant of an enum, field by field, with unique names.
pub struct StructVariantSerializer {
    name: String,
    variant_index: u32,
    variant: String,
    fields: Vec<(String, Value)>,
}

impl View for StructVariantSerializer {
    type V = Seq<(String, Value)>;

    closed spec fn view(&self) -> Seq<(String, Value)> {
        self.fields@
    }
}

impl StructVariantSerializer {
    /// The enum's name, the variant's ordinal and the variant's name.
    pub closed spec fn tag(&self) -> (String, u32, String) {
        (self.name, self.variant_index, self.variant)
    }

    pub open spec fn wf(&self) -> bool {
        names_unique(self@)
    }

    pub fn new(name: String, variant_index: u32, variant: String, len: usize) -> (r: Self)
        ensures
            r.wf(),
            r.tag() == (name, variant_index, variant),
            r@ == Seq::<(String, Value)>::empty(),
    {
        StructVariantSerializer { name, variant_index, variant, fields: Vec::with_capacity(len) }
    }

    pub fn serialize_field(&mut self, key: String, value: Value)
        requires
            old(self).wf(),
        ensures
            final(self).wf(),
            final(self).tag() == old(self).tag(),
            final(self)@ == field_insert(old(self)@, key, value),
    {
        insert_field(&mut self.fields, key, value);
    }

    pub fn end(self) -> (r: Value)
        ensures
            r matches Value::StructVariant { name, variant_index, variant, fields } && (
            name,
            variant_index,
            variant,
            ) == self.tag() && fields@ == self@,
    {
        Value::StructVariant {
            name: self.name,
            variant_index: self.variant_index,
            variant: self.variant,
            fields: self.fields,
        }
    }
}

} // verus!
