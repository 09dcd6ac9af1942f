//! Ordered field lists, as structs and struct variants hold them: lookup by
//! name, insertion that keeps names unique, and the removal of requested
//! fields.
use vstd::prelude::*;

use crate::value::Value;

verus! {

/// No two fields of a field list have the same name.
pub open spec fn names_unique(fs: Seq<(String, Value)>) -> bool {
    forall|i: int, j: int| #![trigger fs[i], fs[j]] 0 <= i < j < fs.len() ==> fs[i].0@ != fs[j].0@
}

/// Whether some field is named `n`.
pub open spec fn has_name(fs: Seq<(String, Value)>, n: Seq<char>) -> bool {
    exists|j: int| #![trigger fs[j]] 0 <= j < fs.len() && fs[j].0@ == n
}

/// Inserting into a field list: a field of the same name keeps its place and
/// takes `v`; otherwise the field is appended.
pub open spec fn field_insert(fs: Seq<(String, Value)>, n: String, v: Value) -> Seq<
    (String, Value),
> {
    if has_name(fs, n@) {
        let j = choose|j: int| #![trigger fs[j]] 0 <= j < fs.len() && fs[j].0@ == n@;
        fs.update(j, (fs[j].0, v))
    } else {
        fs.push((n, v))
    }
}

/// The names of a field list, as character sequences.
pub open spec fn names_of(ns: Seq<&str>) -> Seq<Seq<char>> {
    ns.map_values(|n: &str| n@)
}

/// `j` is the first field named `n`.
pub open spec fn first_name(fs: Seq<(String, Value)>, n: Seq<char>, j: int) -> bool {
    &&& 0 <= j < fs.len()
    &&& fs[j].0@ == n
    &&& forall|i: int| #![trigger fs[i]] 0 <= i < j ==> fs[i].0@ != n
}

/// Struct field extraction: for each requested name in order, the first field
/// of that name is removed from the source and its value taken. The first name
/// that is not (or no longer) present is the error.
pub open spec fn extract(fs: Seq<(String, Value)>, names: Seq<Seq<char>>) -> Result<
    Seq<Value>,
    Seq<char>,
>
    decreases names.len(),
{
    if names.len() == 0 {
        Ok(Seq::empty())
    } else if !(exists|j: int| first_name(fs, names[0], j)) {
        Err(names[0])
    } else {
        let j = choose|j: int| first_name(fs, names[0], j);
        match extract(fs.remove(j), names.drop_first()) {
            Ok(vs) => Ok(seq![fs[j].1].add(vs)),
            Err(n) => Err(n),
        }
    }
}

/// The index of the first field named `name`, if any.
pub(crate) fn find_name(fields: &Vec<(String, Value)>, name: &str) -> (r: Option<usize>)
    ensures
        r is None <==> !(exists|j: int| first_name(fields@, name@, j)),
        r is None <==> !has_name(fields@, name@),
        r matches Some(j) ==> first_name(fields@, name@, j as int),
{
    let mut j: usize = 0;
    while j < fields.len()
        invariant
            j <= fields.len(),
            forall|k: int| #![trigger fields@[k]] 0 <= k < j ==> fields@[k].0@ != name@,
        decreases fields.len() - j,
    {
        if same_name(&fields[j].0, name) {
            assert(first_name(fields@, name@, j as int));
            return Some(j);
        }
        j = j + 1;
    }
    proof {
        assert forall|c: int| !first_name(fields@, name@, c) by {
            if 0 <= c < fields@.len() {
                assert(fields@[c].0@ != name@);
            }
        }
    }
    None
}

/// Removes the requested fields, in request order, and returns their values;
/// or the first requested name that is missing.
pub(crate) fn take_fields(fields: Vec<(String, Value)>, names: &[&str]) -> (r: Result<Vec<Value>, String>)
    ensures
        match extract(fields@, names_of(names@)) {
            Ok(vs) => r is Ok && r->Ok_0@ == vs,
            Err(n) => r is Err && r->Err_0@ == n,
        },
{
    let ghost all = names_of(names@);
    let mut rest = fields;
    let mut out: Vec<Value> = Vec::with_capacity(names.len());
    let mut i: usize = 0;
    proof {
        assert(all.subrange(0, all.len() as int) =~= all);
        if let Ok(vs) = extract(fields@, all) {
            assert(out@.add(vs) =~= vs);
        }
    }
    while i < names.len()
        invariant
            i <= names.len(),
            all == names_of(names@),
            extract(fields@, all) == match extract(rest@, all.subrange(i as int, all.len() as int)) {
                Ok(vs) => Ok(out@.add(vs)),
                Err(n) => Err::<Seq<Value>, Seq<char>>(n),
            },
        decreases names.len() - i,
    {
        let ghost tail = all.subrange(i as int, all.len() as int);
        assert(tail[0] == names@[i as int]@);
        assert(tail.drop_first() =~= all.subrange(i + 1, all.len() as int));
        match find_name(&rest, names[i]) {
            None => {
                return Err(names[i].to_owned());
            },
            Some(j) => {
                let ghost before = rest@;
                proof {
                    let c = choose|c: int| first_name(before, tail[0], c);
                    if c < j {
                        assert(before[c].0@ != tail[0]);
                    } else if j < c {
                        assert(before[j as int].0@ != tail[0]);
                    }
                }
                let (_, v) = rest.remove(j);
                proof {
                    assert(before.remove(j as int) == rest@);
                    match extract(rest@, tail.drop_first()) {
                        Ok(vs) => {
                            assert(out@.push(v).add(vs) =~= out@.add(seq![v].add(vs)));
                        },
                        Err(_) => {},
                    }
                }
                out.push(v);
            },
        }
        i = i + 1;
    }
    proof {
        assert(all.subrange(i as int, all.len() as int) =~= Seq::<Seq<char>>::empty());
        assert(out@.add(Seq::<Value>::empty()) =~= out@);
    }
    Ok(out)
}

/// Whether a stored name equals a requested one.
pub(crate) fn same_name(stored: &String, requested: &str) -> (r: bool)
    ensures
        r == (stored@ == requested@),
{
    *stored == requested.to_owned()
}

/// Inserts a field into a field list with unique names.
pub(crate) fn insert_field(fields: &mut Vec<(String, Value)>, key: String, value: Value)
    requires
        names_unique(old(fields)@),
    ensures
        names_unique(final(fields)@),
        final(fields)@ == field_insert(old(fields)@, key, value),
{
    let ghost fs = fields@;
    match find_name(fields, key.as_str()) {
        Some(j) => {
            proof {
                let c = choose|c: int| #![trigger fs[c]] 0 <= c < fs.len() && fs[c].0@ == key@;
                if c != j {
                    if c < j {
                        assert(fs[c].0@ != fs[j as int].0@);
                    } else {
                        assert(fs[j as int].0@ != fs[c].0@);
                    }
                }
            }
            fields[j].1 = value;
            proof {
                assert forall|a: int, b: int|
                    #![trigger fields@[a], fields@[b]]
                    0 <= a < b < fields@.len() implies fields@[a].0@ != fields@[b].0@ by {
                    assert(fields@[a].0 == fs[a].0);
                    assert(fields@[b].0 == fs[b].0);
                }
                assert(fields@ =~= field_insert(fs, key, value));
            }
        },
        None => {
            fields.push((key, value));
            proof {
                assert forall|a: int, b: int|
                    #![trigger fields@[a], fields@[b]]
                    0 <= a < b < fields@.len() implies fields@[a].0@ != fields@[b].0@ by {
                    assert(fields@[a] == fs[a]);
                    if b < fs.len() {
                        assert(fields@[b] == fs[b]);
                    }
                }
            }
        },
    }
}

} // verus!
