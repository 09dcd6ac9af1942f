//! Properties that relate the engines' contracts: numeric widening and
//! narrowing, and round trips of integers, structs, maps and enum tags.
use vstd::prelude::*;

use crate::de::{coerce_int, int_of, int_range, tag_matches};
use crate::fields::{extract, first_name, has_name, names_of, names_unique};
use crate::error::{Error, ErrorKind, Expected};
use crate::ser::{has_key, keys_unique, map_insert};
use crate::value::{value_eq, Value};

verus! {

/// A request of shape `e` widens the integer stored in `v`: same signedness,
/// equal or greater width.
pub open spec fn widens(v: Value, e: Expected) -> bool {
    match v {
        Value::I8(_) => e is I8 || e is I16 || e is I32 || e is I64 || e is I128,
        Value::I16(_) => e is I16 || e is I32 || e is I64 || e is I128,
        Value::I32(_) => e is I32 || e is I64 || e is I128,
        Value::I64(_) => e is I64 || e is I128,
        Value::I128(_) => e is I128,
        Value::U8(_) => e is U8 || e is U16 || e is U32 || e is U64 || e is U128,
        Value::U16(_) => e is U16 || e is U32 || e is U64 || e is U128,
        Value::U32(_) => e is U32 || e is U64 || e is U128,
        Value::U64(_) => e is U64 || e is U128,
        Value::U128(_) => e is U128,
        _ => false,
    }
}

/// The integer request that matches the width `v` was stored at.
pub open spec fn own_shape(v: Value) -> Expected {
    match v {
        Value::I8(_) => Expected::I8,
        Value::I16(_) => Expected::I16,
        Value::I32(_) => Expected::I32,
        Value::I64(_) => Expected::I64,
        Value::I128(_) => Expected::I128,
        Value::U8(_) => Expected::U8,
        Value::U16(_) => Expected::U16,
        Value::U32(_) => Expected::U32,
        Value::U64(_) => Expected::U64,
        _ => Expected::U128,
    }
}

/// The shapes that request an integer.
pub open spec fn is_int_shape(e: Expected) -> bool {
    e is I8 || e is I16 || e is I32 || e is I64 || e is I128 || e is U8 || e is U16 || e is U32
        || e is U64 || e is U128
}

/// Widening never fails: an integer requested at its own width or a wider one
/// of the same signedness comes back unchanged.
pub proof fn widening_never_fails(v: Value, e: Expected)
    requires
        widens(v, e),
    ensures
        int_of(v) is Some,
        coerce_int(v, e) == Ok::<int, Error>(int_of(v)->Some_0),
{
}

/// Narrowing is checked: an integer outside the requested range fails with
/// out-of-range, and one inside it comes back unchanged.
pub proof fn narrowing_is_checked(v: Value, e: Expected)
    requires
        int_of(v) is Some,
        is_int_shape(e),
    ensures
        ({
            let x = int_of(v)->Some_0;
            &&& (x < int_range(e).0 || x > int_range(e).1) ==> coerce_int(v, e) == Err::<
                int,
                Error,
            >(Error(ErrorKind::OutOfRange))
            &&& (int_range(e).0 <= x <= int_range(e).1) ==> coerce_int(v, e) == Ok::<
                int,
                Error,
            >(x)
        }),
{
}

/// An integer projected at its width and reconstructed at that width is
/// itself.
pub proof fn int_round_trip(v: Value)
    requires
        int_of(v) is Some,
    ensures
        coerce_int(v, own_shape(v)) == Ok::<int, Error>(int_of(v)->Some_0),
{
    widening_never_fails(v, own_shape(v));
}

/// The names of a field list, in order.
pub open spec fn field_names(fs: Seq<(String, Value)>) -> Seq<Seq<char>> {
    fs.map_values(|f: (String, Value)| f.0@)
}

/// The values of a field list, in order.
pub open spec fn field_values(fs: Seq<(String, Value)>) -> Seq<Value> {
    fs.map_values(|f: (String, Value)| f.1)
}

/// A struct requested with the names it was projected with, in the same order,
/// gives back its values in that order.
pub proof fn struct_round_trip(fs: Seq<(String, Value)>)
    ensures
        extract(fs, field_names(fs)) == Ok::<Seq<Value>, Seq<char>>(field_values(fs)),
    decreases fs.len(),
{
    let names = field_names(fs);
    if fs.len() == 0 {
        assert(field_values(fs) =~= Seq::<Value>::empty());
    } else {
        assert(first_name(fs, names[0], 0));
        let c = choose|c: int| first_name(fs, names[0], c);
        assert(c == 0) by {
            if c > 0 {
                assert(fs[0].0@ != names[0]);
            }
        }
        let rest = fs.remove(0);
        assert(rest =~= fs.drop_first());
        assert(names.drop_first() =~= field_names(rest));
        struct_round_trip(rest);
        assert(seq![fs[0].1].add(field_values(rest)) =~= field_values(fs));
    }
}

/// The value of the field named `n`.
pub open spec fn value_named(fs: Seq<(String, Value)>, n: Seq<char>) -> Value {
    fs[choose|j: int| 0 <= j < fs.len() && fs[j].0@ == n].1
}

proof fn named_index_unique(fs: Seq<(String, Value)>, n: Seq<char>, j: int)
    requires
        names_unique(fs),
        0 <= j < fs.len(),
        fs[j].0@ == n,
    ensures
        value_named(fs, n) == fs[j].1,
        first_name(fs, n, j),
{
    let c = choose|c: int| 0 <= c < fs.len() && fs[c].0@ == n;
    if c < j {
        assert(fs[c].0@ != fs[j].0@);
    } else if j < c {
        assert(fs[j].0@ != fs[c].0@);
    }
    assert forall|i: int| #![trigger fs[i]] 0 <= i < j implies fs[i].0@ != n by {
        assert(fs[i].0@ != fs[j].0@);
    }
}

/// Field order does not matter: a struct whose names are unique, requested
/// with distinct names that it all holds, gives back for each requested name
/// that field's value, in the requested order.
pub proof fn struct_fields_any_order(fs: Seq<(String, Value)>, names: Seq<Seq<char>>)
    requires
        names_unique(fs),
        forall|i: int, j: int| #![trigger names[i], names[j]] 0 <= i < j < names.len() ==> names[i] != names[j],
        forall|i: int| #![trigger names[i]] 0 <= i < names.len() ==> has_name(fs, names[i]),
    ensures
        extract(fs, names) == Ok::<Seq<Value>, Seq<char>>(
            names.map_values(|n: Seq<char>| value_named(fs, n)),
        ),
    decreases names.len(),
{
    if names.len() == 0 {
        assert(names.map_values(|n: Seq<char>| value_named(fs, n)) =~= Seq::<Value>::empty());
    } else {
        let n0 = names[0];
        assert(has_name(fs, n0));
        let j0 = choose|j: int| #![trigger fs[j]] 0 <= j < fs.len() && fs[j].0@ == n0;
        named_index_unique(fs, n0, j0);
        let c = choose|c: int| first_name(fs, n0, c);
        assert(c == j0) by {
            if c < j0 {
                assert(fs[c].0@ != n0);
            } else if j0 < c {
                assert(fs[j0].0@ != n0);
            }
        }
        let rest = fs.remove(c);
        let tail = names.drop_first();
        assert forall|a: int, b: int|
            #![trigger rest[a], rest[b]]
            0 <= a < b < rest.len() implies rest[a].0@ != rest[b].0@ by {
            let a1 = if a < c { a } else { a + 1 };
            let b1 = if b < c { b } else { b + 1 };
            assert(rest[a] == fs[a1]);
            assert(rest[b] == fs[b1]);
            assert(fs[a1].0@ != fs[b1].0@);
        }
        assert forall|i: int| #![trigger tail[i]] 0 <= i < tail.len() implies has_name(
            rest,
            tail[i],
        ) && value_named(rest, tail[i]) == value_named(fs, tail[i]) by {
            assert(tail[i] == names[i + 1]);
            assert(names[0] != names[i + 1]);
            assert(has_name(fs, names[i + 1]));
            let j = choose|j: int| #![trigger fs[j]] 0 <= j < fs.len() && fs[j].0@ == tail[i];
            named_index_unique(fs, tail[i], j);
            assert(j != c);
            let j1 = if j < c { j } else { j - 1 };
            assert(rest[j1] == fs[j]);
            named_index_unique(rest, tail[i], j1);
        }
        assert forall|i: int, j: int|
            #![trigger tail[i], tail[j]]
            0 <= i < j < tail.len() implies tail[i] != tail[j] by {
            assert(names[i + 1] != names[j + 1]);
        }
        struct_fields_any_order(rest, tail);
        assert(seq![fs[c].1].add(tail.map_values(|n: Seq<char>| value_named(rest, n)))
            =~= names.map_values(|n: Seq<char>| value_named(fs, n)));
    }
}

/// A variant projected with the ordinal and name under which its enum declares
/// it is accepted by a request for that enum.
pub proof fn enum_round_trip(name: String, variant_index: u32, variant: String, declared: Seq<&str>)
    requires
        (variant_index as int) < declared.len(),
        declared[variant_index as int]@ == variant@,
    ensures
        tag_matches((name, variant_index, variant), name@, names_of(declared)),
{
}

/// An enum value is only accepted by a request that names its type and lists
/// its variant name at its ordinal; any other request rejects it.
pub proof fn enum_impostors_rejected(
    tag: (String, u32, String),
    name: Seq<char>,
    declared: Seq<&str>,
)
    requires
        tag.0@ != name || (tag.1 as int) >= declared.len() || declared[tag.1 as int]@ != tag.2@,
    ensures
        !tag_matches(tag, name, names_of(declared)),
{
}

/// The map that inserting `es` pair by pair, in order, builds from empty.
pub open spec fn insert_all(es: Seq<(Value, Value)>) -> Seq<(Value, Value)>
    decreases es.len(),
{
    if es.len() == 0 {
        Seq::empty()
    } else {
        map_insert(insert_all(es.drop_last()), es.last().0, es.last().1)
    }
}

/// Pairs with pairwise distinct keys, inserted in order, become exactly the
/// map's entries in that order; a map accessor then hands them back as given.
pub proof fn map_round_trip(es: Seq<(Value, Value)>)
    requires
        keys_unique(es),
    ensures
        insert_all(es) == es,
    decreases es.len(),
{
    if es.len() > 0 {
        let init = es.drop_last();
        assert forall|i: int, j: int|
            #![trigger init[i], init[j]]
            0 <= i < j < init.len() implies !value_eq(init[i].0, init[j].0) by {
            assert(init[i] == es[i] && init[j] == es[j]);
        }
        map_round_trip(init);
        assert(!has_key(init, es.last().0)) by {
            assert forall|j: int| #![trigger init[j]] 0 <= j < init.len() implies !value_eq(
                init[j].0,
                es.last().0,
            ) by {
                assert(init[j] == es[j]);
                assert(es[es.len() - 1] == es.last());
            }
        }
        assert(init.push(es.last()) =~= es);
    }
}

} // verus!
