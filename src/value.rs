//! The canonical value model: one recursive enum for every shape, with
//! structural equality and hashability.
use vstd::prelude::*;

verus! {

/// The canonical, format-agnostic value: every shape of the structural type
/// system as one recursive enum.
///
/// Floats are carried as their IEEE-754 bit patterns, so that equality on them
/// is exact. Ordered maps are vectors of entries in insertion order; the
/// builders keep their keys unique.
#[derive(Debug, PartialEq)]
pub enum Value {
    Bool(bool),
    I8(i8),
    I16(i16),
    I32(i32),
    I64(i64),
    I128(i128),
    U8(u8),
    U16(u16),
    U32(u32),
    U64(u64),
    U128(u128),
    /// The bits of an `f32`.
    F32(u32),
    /// The bits of an `f64`.
    F64(u64),
    Char(char),
    Str(String),
    Bytes(Vec<u8>),
    /// The absent half of an option.
    Absent,
    /// The present half of an option.
    Present(Box<Value>),
    /// The anonymous empty value.
    Unit,
    /// A named empty value.
    UnitStruct(String),
    UnitVariant { name: String, variant_index: u32, variant: String },
    NewtypeStruct(String, Box<Value>),
    NewtypeVariant { name: String, variant_index: u32, variant: String, value: Box<Value> },
    /// A variable-length sequence.
    Sequence(Vec<Value>),
    /// A fixed-length sequence: a tuple or an array.
    Tuple(Vec<Value>),
    TupleStruct(String, Vec<Value>),
    TupleVariant { name: String, variant_index: u32, variant: String, fields: Vec<Value> },
    /// A general map, in insertion order.
    Mapping(Vec<(Value, Value)>),
    /// A named aggregate: field names to values, in declaration order.
    Struct(String, Vec<(String, Value)>),
    StructVariant {
        name: String,
        variant_index: u32,
        variant: String,
        fields: Vec<(String, Value)>,
    },
}

/// Structural equality: same variant, same names, numbers of the same width with
/// the same value, and pairwise equal children in the same order.
pub open spec fn value_eq(a: Value, b: Value) -> bool
    decreases a,
{
    match a {
        Value::Bool(x) => match b {
            Value::Bool(y) => x == y,
            _ => false,
        },
        Value::I8(x) => match b {
            Value::I8(y) => x == y,
            _ => false,
        },
        Value::I16(x) => match b {
            Value::I16(y) => x == y,
            _ => false,
        },
        Value::I32(x) => match b {
            Value::I32(y) => x == y,
            _ => false,
        },
        Value::I64(x) => match b {
            Value::I64(y) => x == y,
            _ => false,
        },
        Value::I128(x) => match b {
            Value::I128(y) => x == y,
            _ => false,
        },
        Value::U8(x) => match b {
            Value::U8(y) => x == y,
            _ => false,
        },
        Value::U16(x) => match b {
            Value::U16(y) => x == y,
            _ => false,
        },
        Value::U32(x) => match b {
            Value::U32(y) => x == y,
            _ => false,
        },
        Value::U64(x) => match b {
            Value::U64(y) => x == y,
            _ => false,
        },
        Value::U128(x) => match b {
            Value::U128(y) => x == y,
            _ => false,
        },
        Value::F32(x) => match b {
            Value::F32(y) => x == y,
            _ => false,
        },
        Value::F64(x) => match b {
            Value::F64(y) => x == y,
            _ => false,
        },
        Value::Char(x) => match b {
            Value::Char(y) => x == y,
            _ => false,
        },
        Value::Str(x) => match b {
            Value::Str(y) => x@ == y@,
            _ => false,
        },
        Value::Bytes(x) => match b {
            Value::Bytes(y) => x@ == y@,
            _ => false,
        },
        Value::Absent => b is Absent,
        Value::Present(x) => match b {
            Value::Present(y) => value_eq(*x, *y),
            _ => false,
        },
        Value::Unit => b is Unit,
        Value::UnitStruct(n) => match b {
            Value::UnitStruct(m) => n@ == m@,
            _ => false,
        },
        Value::UnitVariant { name, variant_index, variant } => match b {
            Value::UnitVariant { name: n, variant_index: i, variant: v } => name@ == n@
                && variant_index == i && variant@ == v@,
            _ => false,
        },
        Value::NewtypeStruct(n, x) => match b {
            Value::NewtypeStruct(m, y) => n@ == m@ && value_eq(*x, *y),
            _ => false,
        },
        Value::NewtypeVariant { name, variant_index, variant, value } => match b {
            Value::NewtypeVariant { name: n, variant_index: i, variant: v, value: y } => name@
                == n@ && variant_index == i && variant@ == v@ && value_eq(*value, *y),
            _ => false,
        },
        Value::Sequence(xs) => match b {
            Value::Sequence(ys) => xs.len() == ys.len() && forall|i: int| #![trigger xs[i]]
                0 <= i < xs.len() ==> value_eq(xs[i], ys[i]),
            _ => false,
        },
        Value::Tuple(xs) => match b {
            Value::Tuple(ys) => xs.len() == ys.len() && forall|i: int| #![trigger xs[i]]
                0 <= i < xs.len() ==> value_eq(xs[i], ys[i]),
            _ => false,
        },
        Value::TupleStruct(n, xs) => match b {
            Value::TupleStruct(m, ys) => n@ == m@ && xs.len() == ys.len() && forall|i: int| #![trigger xs[i]]
                0 <= i < xs.len() ==> value_eq(xs[i], ys[i]),
            _ => false,
        },
        Value::TupleVariant { name, variant_index, variant, fields: xs } => match b {
            Value::TupleVariant { name: n, variant_index: i, variant: v, fields: ys } => name@
                == n@ && variant_index == i && variant@ == v@ && xs.len() == ys.len() && forall|k: int| #![trigger xs[k]]
                0 <= k < xs.len() ==> value_eq(xs[k], ys[k]),
            _ => false,
        },
        Value::Mapping(xs) => match b {
            Value::Mapping(ys) => xs.len() == ys.len() && forall|i: int| #![trigger xs[i]]
                0 <= i < xs.len() ==> value_eq(xs[i].0, ys[i].0) && value_eq(
                    xs[i].1,
                    ys[i].1,
                ),
            _ => false,
        },
        Value::Struct(n, xs) => match b {
            Value::Struct(m, ys) => n@ == m@ && xs.len() == ys.len() && forall|i: int| #![trigger xs[i]]
                0 <= i < xs.len() ==> xs[i].0@ == ys[i].0@ && value_eq(
                    xs[i].1,
                    ys[i].1,
                ),
            _ => false,
        },
        Value::StructVariant { name, variant_index, variant, fields: xs } => match b {
            Value::StructVariant { name: n, variant_index: i, variant: v, fields: ys } => name@
                == n@ && variant_index == i && variant@ == v@ && xs.len() == ys.len() && forall|k: int| #![trigger xs[k]]
                0 <= k < xs.len() ==> xs[k].0@ == ys[k].0@ && value_eq(
                    xs[k].1,
                    ys[k].1,
                ),
            _ => false,
        },
    }
}

/// A value can be hashed, and so serve as a map key, exactly when no float
/// occurs anywhere in it.
pub open spec fn hashable(v: Value) -> bool
    decreases v,
{
    match v {
        Value::F32(_) => false,
        Value::F64(_) => false,
        Value::Present(x) => hashable(*x),
        Value::NewtypeStruct(_, x) => hashable(*x),
        Value::NewtypeVariant { value, .. } => hashable(*value),
        Value::Sequence(xs) => forall|i: int| #![trigger xs[i]] 0 <= i < xs.len() ==> hashable(xs[i]),
        Value::Tuple(xs) => forall|i: int| #![trigger xs[i]] 0 <= i < xs.len() ==> hashable(xs[i]),
        Value::TupleStruct(_, xs) => forall|i: int| #![trigger xs[i]]
            0 <= i < xs.len() ==> hashable(xs[i]),
        Value::TupleVariant { fields, .. } => forall|i: int| #![trigger fields[i]]
            0 <= i < fields.len() ==> hashable(fields[i]),
        Value::Mapping(xs) => forall|i: int| #![trigger xs[i]]
            0 <= i < xs.len() ==> hashable(xs[i].0) && hashable(xs[i].1),
        Value::Struct(_, xs) => forall|i: int| #![trigger xs[i]]
            0 <= i < xs.len() ==> hashable(xs[i].1),
        Value::StructVariant { fields, .. } => forall|i: int| #![trigger fields[i]]
            0 <= i < fields.len() ==> hashable(fields[i].1),
        _ => true,
    }
}

impl Value {
    /// Whether the value can serve as a map key: false exactly when a float
    /// occurs in it. Hashing is fallible here instead of aborting on a float.
    pub fn is_hashable(&self) -> (r: bool)
        ensures
            r == hashable(*self),
        decreases self,
    {
        match self {
            Value::F32(_) => false,
            Value::F64(_) => false,
            Value::Present(x) => x.is_hashable(),
            Value::NewtypeStruct(_, x) => x.is_hashable(),
            Value::NewtypeVariant { value, .. } => value.is_hashable(),
            Value::Sequence(xs) => all_hashable(xs),
            Value::Tuple(xs) => all_hashable(xs),
            Value::TupleStruct(_, xs) => all_hashable(xs),
            Value::TupleVariant { fields, .. } => all_hashable(fields),
            Value::Mapping(xs) => entries_hashable(xs),
            Value::Struct(_, xs) => fields_hashable(xs),
            Value::StructVariant { fields, .. } => fields_hashable(fields),
            _ => true,
        }
    }

    /// Structural equality, as `value_eq` states it.
    pub fn equals(&self, other: &Value) -> (r: bool)
        ensures
            r == value_eq(*self, *other),
        decreases self,
    {
        match self {
            Value::Bool(x) => match other {
                Value::Bool(y) => *x == *y,
                _ => false,
            },
            Value::I8(x) => match other {
                Value::I8(y) => *x == *y,
                _ => false,
            },
            Value::I16(x) => match other {
                Value::I16(y) => *x == *y,
                _ => false,
            },
            Value::I32(x) => match other {
                Value::I32(y) => *x == *y,
                _ => false,
            },
            Value::I64(x) => match other {
                Value::I64(y) => *x == *y,
                _ => false,
            },
            Value::I128(x) => match other {
                Value::I128(y) => *x == *y,
                _ => false,
            },
            Value::U8(x) => match other {
                Value::U8(y) => *x == *y,
                _ => false,
            },
            Value::U16(x) => match other {
                Value::U16(y) => *x == *y,
                _ => false,
            },
            Value::U32(x) => match other {
                Value::U32(y) => *x == *y,
                _ => false,
            },
            Value::U64(x) => match other {
                Value::U64(y) => *x == *y,
                _ => false,
            },
            Value::U128(x) => match other {
                Value::U128(y) => *x == *y,
                _ => false,
            },
            Value::F32(x) => match other {
                Value::F32(y) => *x == *y,
                _ => false,
            },
            Value::F64(x) => match other {
                Value::F64(y) => *x == *y,
                _ => false,
            },
            Value::Char(x) => match other {
                Value::Char(y) => *x == *y,
                _ => false,
            },
            Value::Str(x) => match other {
                Value::Str(y) => *x == *y,
                _ => false,
            },
            Value::Bytes(x) => match other {
                Value::Bytes(y) => bytes_equal(x, y),
                _ => false,
            },
            Value::Absent => match other {
                Value::Absent => true,
                _ => false,
            },
            Value::Present(x) => match other {
                Value::Present(y) => x.equals(y),
                _ => false,
            },
            Value::Unit => match other {
                Value::Unit => true,
                _ => false,
            },
            Value::UnitStruct(n) => match other {
                Value::UnitStruct(m) => *n == *m,
                _ => false,
            },
            Value::UnitVariant { name, variant_index, variant } => match other {
                Value::UnitVariant { name: n, variant_index: i, variant: v } => *name == *n && *variant_index == *i && *variant == *v,
                _ => false,
            },
            Value::NewtypeStruct(n, x) => match other {
                Value::NewtypeStruct(m, y) => *n == *m && x.equals(y),
                _ => false,
            },
            Value::NewtypeVariant { name, variant_index, variant, value } => match other {
                Value::NewtypeVariant { name: n, variant_index: i, variant: v, value: y } => *name == *n && *variant_index == *i && *variant == *v && value.equals(y),
                _ => false,
            },
            Value::Sequence(xs) => match other {
                Value::Sequence(ys) => all_equal(xs, ys),
                _ => false,
            },
            Value::Tuple(xs) => match other {
                Value::Tuple(ys) => all_equal(xs, ys),
                _ => false,
            },
            Value::TupleStruct(n, xs) => match other {
                Value::TupleStruct(m, ys) => *n == *m && all_equal(xs, ys),
                _ => false,
            },
            Value::TupleVariant { name, variant_index, variant, fields } => match other {
                Value::TupleVariant { name: n, variant_index: i, variant: v, fields: ys } => *name == *n && *variant_index == *i && *variant == *v && all_equal(fields, ys),
                _ => false,
            },
            Value::Mapping(xs) => match other {
                Value::Mapping(ys) => entries_equal(xs, ys),
                _ => false,
            },
            Value::Struct(n, xs) => match other {
                Value::Struct(m, ys) => *n == *m && fields_equal(xs, ys),
                _ => false,
            },
            Value::StructVariant { name, variant_index, variant, fields } => match other {
                Value::StructVariant { name: n, variant_index: i, variant: v, fields: ys } => *name == *n && *variant_index == *i && *variant == *v && fields_equal(fields, ys),
                _ => false,
            },
        }
    }
}

fn all_hashable(xs: &Vec<Value>) -> (r: bool)
    ensures
        r == forall|i: int| #![trigger xs[i]] 0 <= i < xs.len() ==> hashable(xs[i]),
    decreases xs,
{
    let mut i: usize = 0;
    while i < xs.len()
        invariant
            i <= xs.len(),
            forall|k: int| #![trigger xs[k]] 0 <= k < i ==> hashable(xs[k]),
        decreases xs.len() - i,
    {
        proof {
            vstd::std_specs::vec::axiom_vec_index_decreases(*xs, i as int);
        }
        if !xs[i].is_hashable() {
            return false;
        }
        i = i + 1;
    }
    true
}

fn entries_hashable(xs: &Vec<(Value, Value)>) -> (r: bool)
    ensures
        r == forall|i: int| #![trigger xs[i]] 0 <= i < xs.len() ==> hashable(xs[i].0) && hashable(xs[i].1),
    decreases xs,
{
    let mut i: usize = 0;
    while i < xs.len()
        invariant
            i <= xs.len(),
            forall|k: int| #![trigger xs[k]] 0 <= k < i ==> hashable(xs[k].0) && hashable(xs[k].1),
        decreases xs.len() - i,
    {
        proof {
            vstd::std_specs::vec::axiom_vec_index_decreases(*xs, i as int);
        }
        if !xs[i].0.is_hashable() || !xs[i].1.is_hashable() {
            return false;
        }
        i = i + 1;
    }
    true
}

fn fields_hashable(xs: &Vec<(String, Value)>) -> (r: bool)
    ensures
        r == forall|i: int| #![trigger xs[i]] 0 <= i < xs.len() ==> hashable(xs[i].1),
    decreases xs,
{
    let mut i: usize = 0;
    while i < xs.len()
        invariant
            i <= xs.len(),
            forall|k: int| #![trigger xs[k]] 0 <= k < i ==> hashable(xs[k].1),
        decreases xs.len() - i,
    {
        proof {
            vstd::std_specs::vec::axiom_vec_index_decreases(*xs, i as int);
        }
        if !xs[i].1.is_hashable() {
            return false;
        }
        i = i + 1;
    }
    true
}

fn bytes_equal(xs: &Vec<u8>, ys: &Vec<u8>) -> (r: bool)
    ensures
        r == (xs@ == ys@),
{
    if xs.len() != ys.len() {
        return false;
    }
    let mut i: usize = 0;
    while i < xs.len()
        invariant
            i <= xs.len(),
            xs.len() == ys.len(),
            forall|k: int| #![trigger xs[k]] 0 <= k < i ==> xs[k] == ys[k],
        decreases xs.len() - i,
    {
        if xs[i] != ys[i] {
            return false;
        }
        i = i + 1;
    }
    assert(xs@ =~= ys@);
    true
}

fn all_equal(xs: &Vec<Value>, ys: &Vec<Value>) -> (r: bool)
    ensures
        r == (xs.len() == ys.len() && forall|i: int| #![trigger xs[i]]
            0 <= i < xs.len() ==> value_eq(xs[i], ys[i])),
    decreases xs,
{
    if xs.len() != ys.len() {
        return false;
    }
    let mut i: usize = 0;
    while i < xs.len()
        invariant
            i <= xs.len(),
            xs.len() == ys.len(),
            forall|k: int| 0 <= k < i ==> value_eq(xs[k], ys[k]),
        decreases xs.len() - i,
    {
        proof {
            vstd::std_specs::vec::axiom_vec_index_decreases(*xs, i as int);
        }
        if !xs[i].equals(&ys[i]) {
            return false;
        }
        i = i + 1;
    }
    true
}

fn entries_equal(xs: &Vec<(Value, Value)>, ys: &Vec<(Value, Value)>) -> (r: bool)
    ensures
        r == (xs.len() == ys.len() && forall|i: int| #![trigger xs[i]]
            0 <= i < xs.len() ==> value_eq(xs[i].0, ys[i].0) && value_eq(
                xs[i].1,
                ys[i].1,
            )),
    decreases xs,
{
    if xs.len() != ys.len() {
        return false;
    }
    let mut i: usize = 0;
    while i < xs.len()
        invariant
            i <= xs.len(),
            xs.len() == ys.len(),
            forall|k: int| #![trigger xs[k]]
                0 <= k < i ==> value_eq(xs[k].0, ys[k].0) && value_eq(
                    xs[k].1,
                    ys[k].1,
                ),
        decreases xs.len() - i,
    {
        proof {
            vstd::std_specs::vec::axiom_vec_index_decreases(*xs, i as int);
        }
        if !xs[i].0.equals(&ys[i].0) || !xs[i].1.equals(&ys[i].1) {
            return false;
        }
        i = i + 1;
    }
    true
}

fn fields_equal(xs: &Vec<(String, Value)>, ys: &Vec<(String, Value)>) -> (r: bool)
    ensures
        r == (xs.len() == ys.len() && forall|i: int| #![trigger xs[i]]
            0 <= i < xs.len() ==> xs[i].0@ == ys[i].0@ && value_eq(xs[i].1, ys[i].1)),
    decreases xs,
{
    if xs.len() != ys.len() {
        return false;
    }
    let mut i: usize = 0;
    while i < xs.len()
        invariant
            i <= xs.len(),
            xs.len() == ys.len(),
            forall|k: int| #![trigger xs[k]]
                0 <= k < i ==> xs[k].0@ == ys[k].0@ && value_eq(xs[k].1, ys[k].1),
        decreases xs.len() - i,
    {
        proof {
            vstd::std_specs::vec::axiom_vec_index_decreases(*xs, i as int);
        }
        if xs[i].0 != ys[i].0 || !xs[i].1.equals(&ys[i].1) {
            return false;
        }
        i = i + 1;
    }
    true
}

} // verus!
