//! Conversion of document metadata to and from the values the index stores.
use vstd::prelude::*;

use crate::models::{JsonValue, Metadata};

use tantivy::schema::OwnedValue;

verus! {

#[verifier::external_type_specification]
#[verifier::external_body]
pub struct ExOwnedValue(OwnedValue);

/// Relies on serde_json's `Number::as_i64`: the number as an `i64` when it is one.
pub assume_specification[ serde_json::Number::as_i64 ](n: &serde_json::Number) -> Option<i64>;

/// Relies on serde_json's `Number::as_u64`: the number as a `u64` when it is one.
pub assume_specification[ serde_json::Number::as_u64 ](n: &serde_json::Number) -> Option<u64>;

/// Relies on serde_json's `Number::from` for `i64`: the JSON number of that value.
pub assume_specification[ <serde_json::Number as From<i64>>::from ](i: i64) -> serde_json::Number;

/// Relies on serde_json's `Number::from` for `u64`: the JSON number of that value.
pub assume_specification[ <serde_json::Number as From<u64>>::from ](u: u64) -> serde_json::Number;

/// Relies on serde_json's derived `Clone` for `Number`: a copy of the same number.
pub assume_specification[ <serde_json::Number as Clone>::clone ](n: &serde_json::Number) -> (r: serde_json::Number)
    ensures
        r == *n,
;

/// A value as the index stores it: integers as `i64` or `u64`, other numbers in float
/// form, and arrays and objects element by element.
#[derive(Debug)]
pub enum StoredValue {
    Null,
    Bool(bool),
    I64(i64),
    U64(u64),
    /// A number that is neither an `i64` nor a `u64`, stored in its float form.
    Float(serde_json::Number),
    Str(String),
    Array(Vec<StoredValue>),
    /// An object as its keys and, at the same indices, their values.
    Object(Vec<String>, Vec<StoredValue>),
}

/// The number of members of an object: keys without a value are not members.
pub open spec fn member_count(keys: Seq<String>, values: Seq<JsonValue>) -> int {
    if keys.len() <= values.len() {
        keys.len() as int
    } else {
        values.len() as int
    }
}

/// Whether `s` is the stored form of `j`: the same shape, strings and keys equal, the
/// members of an object in order, and a number stored as an `i64`, a `u64` or in its own
/// float form. Which of the three a number takes is serde_json's classification, which no
/// plain value here describes, so the relation admits each.
pub open spec fn stored_of(j: JsonValue, s: StoredValue) -> bool
    decreases j,
    via stored_of_decreases
{
    match j {
        JsonValue::Null => s == StoredValue::Null,
        JsonValue::Bool(b) => s == StoredValue::Bool(b),
        JsonValue::Number(n) => s is I64 || s is U64 || s == StoredValue::Float(n),
        JsonValue::Str(t) => s == StoredValue::Str(t),
        JsonValue::Array(a) => match s {
            StoredValue::Array(b) => b@.len() == a@.len() && forall|i: int|
                0 <= i < a@.len() ==> #[trigger] stored_of(a@[i], b@[i]),
            _ => false,
        },
        JsonValue::Object { keys, values } => match s {
            StoredValue::Object(k, v) => k@ == keys@.subrange(0, member_count(keys@, values@))
                && v@.len() == member_count(keys@, values@) && forall|i: int|
                0 <= i < v@.len() ==> #[trigger] stored_of(values@[i], v@[i]),
            _ => false,
        },
    }
}

#[via_fn]
proof fn stored_of_decreases(j: JsonValue, s: StoredValue) {
    broadcast use vstd::std_specs::vec::axiom_vec_decreases_to_view;

    match j {
        JsonValue::Array(a) => {
            assert forall|i: int| 0 <= i < a@.len() implies decreases_to!(j => a@[i]) by {
                assert(decreases_to!(j => j->Array_0));
                assert(decreases_to!(j->Array_0 => j->Array_0@));
                assert(decreases_to!(j->Array_0@ => j->Array_0@[i]));
            }
        },
        JsonValue::Object { keys, values } => {
            assert forall|i: int| 0 <= i < values@.len() implies decreases_to!(j => values@[i]) by {
                assert(decreases_to!(j => j->Object_values));
                assert(decreases_to!(j->Object_values => j->Object_values@));
                assert(decreases_to!(j->Object_values@ => j->Object_values@[i]));
            }
        },
        _ => {},
    }
}

/// Converts a metadata value into its stored form.
pub fn to_stored(v: &JsonValue) -> (r: StoredValue)
    ensures
        stored_of(*v, r),
    decreases v,
{
    match v {
        JsonValue::Null => StoredValue::Null,
        JsonValue::Bool(b) => StoredValue::Bool(*b),
        JsonValue::Number(n) => match n.as_i64() {
            Some(i) => StoredValue::I64(i),
            None => match n.as_u64() {
                Some(u) => StoredValue::U64(u),
                None => StoredValue::Float(n.clone()),
            },
        },
        JsonValue::Str(s) => StoredValue::Str(s.clone()),
        JsonValue::Array(items) => {
            let mut out: Vec<StoredValue> = Vec::new();
            let mut i: usize = 0;
            while i < items.len()
                invariant
                    0 <= i <= items@.len(),
                    *v == JsonValue::Array(*items),
                    out@.len() == i,
                    forall|k: int| 0 <= k < i ==> #[trigger] stored_of(items@[k], out@[k]),
                decreases items@.len() - i,
            {
                proof {
                    broadcast use vstd::std_specs::vec::axiom_vec_index_decreases;

                    assert(decreases_to!(*v => v->Array_0));
                    assert(decreases_to!(v->Array_0 => v->Array_0[i as int]));
                }
                let s = to_stored(&items[i]);
                let ghost prev = out@;
                out.push(s);
                proof {
                    assert forall|k: int| 0 <= k < i + 1 implies #[trigger] stored_of(items@[k], out@[k]) by {
                        if k < i {
                            assert(out@[k] == prev[k]);
                            assert(stored_of(items@[k], prev[k]));
                        }
                    }
                }
                i = i + 1;
            }
            assert(out@.len() == items@.len());
            assert(forall|k: int| 0 <= k < items@.len() ==> stored_of(items@[k], out@[k]));
            assert(*v == JsonValue::Array(*items));
            let r = StoredValue::Array(out);
            proof {
                assert(r->Array_0@ == out@);
                assert(stored_of(*v, r));
            }
            r
        },
        JsonValue::Object { keys, values } => {
            let mut ks: Vec<String> = Vec::new();
            let mut out: Vec<StoredValue> = Vec::new();
            let mut i: usize = 0;
            while i < keys.len() && i < values.len()
                invariant
                    0 <= i <= member_count(keys@, values@),
                    *v == (JsonValue::Object { keys: *keys, values: *values }),
                    ks@ == keys@.subrange(0, i as int),
                    out@.len() == i,
                    forall|k: int| 0 <= k < i ==> #[trigger] stored_of(values@[k], out@[k]),
                decreases values@.len() - i,
            {
                proof {
                    broadcast use vstd::std_specs::vec::axiom_vec_index_decreases;

                    assert(decreases_to!(*v => v->Object_values));
                    assert(decreases_to!(v->Object_values => v->Object_values[i as int]));
                }
                let s = to_stored(&values[i]);
                ks.push(keys[i].clone());
                let ghost prev = out@;
                out.push(s);
                proof {
                    assert(ks@ =~= keys@.subrange(0, i + 1));
                    assert forall|k: int| 0 <= k < i + 1 implies #[trigger] stored_of(values@[k], out@[k]) by {
                        if k < i {
                            assert(out@[k] == prev[k]);
                            assert(stored_of(values@[k], prev[k]));
                        }
                    }
                }
                i = i + 1;
            }
            assert(i == member_count(keys@, values@));
            assert(forall|k: int| 0 <= k < out@.len() ==> stored_of(values@[k], out@[k]));
            assert(*v == (JsonValue::Object { keys: *keys, values: *values }));
            let r = StoredValue::Object(ks, out);
            proof {
                assert(r->Object_0@ == ks@ && r->Object_1@ == out@);
                assert(stored_of(*v, r));
            }
            r
        },
    }
}

/// Whether `j` is the metadata value restored from `s`: the same shape, strings and keys
/// equal, a stored float the same number, and a stored integer some number (the number
/// serde_json makes of it, which no plain value here describes).
pub open spec fn restored_of(s: StoredValue, j: JsonValue) -> bool
    decreases s,
    via restored_of_decreases
{
    match s {
        StoredValue::Null => j == JsonValue::Null,
        StoredValue::Bool(b) => j == JsonValue::Bool(b),
        StoredValue::I64(_) | StoredValue::U64(_) => j is Number,
        StoredValue::Float(n) => j == JsonValue::Number(n),
        StoredValue::Str(t) => j == JsonValue::Str(t),
        StoredValue::Array(b) => match j {
            JsonValue::Array(a) => a@.len() == b@.len() && forall|i: int|
                0 <= i < b@.len() ==> #[trigger] restored_of(b@[i], a@[i]),
            _ => false,
        },
        StoredValue::Object(k, v) => match j {
            JsonValue::Object { keys, values } => keys@ == k@.subrange(0, member_count_stored(k@, v@))
                && values@.len() == member_count_stored(k@, v@) && forall|i: int|
                0 <= i < values@.len() ==> #[trigger] restored_of(v@[i], values@[i]),
            _ => false,
        },
    }
}

/// The number of members of a stored object.
pub open spec fn member_count_stored(keys: Seq<String>, values: Seq<StoredValue>) -> int {
    if keys.len() <= values.len() {
        keys.len() as int
    } else {
        values.len() as int
    }
}

#[via_fn]
proof fn restored_of_decreases(s: StoredValue, j: JsonValue) {
    broadcast use vstd::std_specs::vec::axiom_vec_decreases_to_view;

    match s {
        StoredValue::Array(b) => {
            assert forall|i: int| 0 <= i < b@.len() implies decreases_to!(s => b@[i]) by {
                assert(decreases_to!(s => s->Array_0));
                assert(decreases_to!(s->Array_0 => s->Array_0@));
                assert(decreases_to!(s->Array_0@ => s->Array_0@[i]));
            }
        },
        StoredValue::Object(k, v) => {
            assert forall|i: int| 0 <= i < v@.len() implies decreases_to!(s => v@[i]) by {
                assert(decreases_to!(s => s->Object_1));
                assert(decreases_to!(s->Object_1 => s->Object_1@));
                assert(decreases_to!(s->Object_1@ => s->Object_1@[i]));
            }
        },
        _ => {},
    }
}

/// Restores a metadata value from its stored form.
pub fn from_stored(s: &StoredValue) -> (r: JsonValue)
    ensures
        restored_of(*s, r),
    decreases s,
{
    match s {
        StoredValue::Null => JsonValue::Null,
        StoredValue::Bool(b) => JsonValue::Bool(*b),
        StoredValue::I64(i) => JsonValue::Number(serde_json::Number::from(*i)),
        StoredValue::U64(u) => JsonValue::Number(serde_json::Number::from(*u)),
        StoredValue::Float(n) => JsonValue::Number(n.clone()),
        StoredValue::Str(t) => JsonValue::Str(t.clone()),
        StoredValue::Array(items) => {
            let mut out: Vec<JsonValue> = Vec::new();
            let mut i: usize = 0;
            while i < items.len()
                invariant
                    0 <= i <= items@.len(),
                    *s == StoredValue::Array(*items),
                    out@.len() == i,
                    forall|k: int| 0 <= k < i ==> #[trigger] restored_of(items@[k], out@[k]),
                decreases items@.len() - i,
            {
                proof {
                    broadcast use vstd::std_specs::vec::axiom_vec_index_decreases;

                    assert(decreases_to!(*s => s->Array_0));
                    assert(decreases_to!(s->Array_0 => s->Array_0[i as int]));
                }
                let j = from_stored(&items[i]);
                let ghost prev = out@;
                out.push(j);
                proof {
                    assert forall|k: int| 0 <= k < i + 1 implies #[trigger] restored_of(items@[k], out@[k]) by {
                        if k < i {
                            assert(out@[k] == prev[k]);
                            assert(restored_of(items@[k], prev[k]));
                        }
                    }
                }
                i = i + 1;
            }
            assert(out@.len() == items@.len());
            assert(forall|k: int| 0 <= k < items@.len() ==> restored_of(items@[k], out@[k]));
            assert(*s == StoredValue::Array(*items));
            let r = JsonValue::Array(out);
            proof {
                assert(r->Array_0@ == out@);
                assert(restored_of(*s, r));
            }
            r
        },
        StoredValue::Object(keys, values) => {
            let mut ks: Vec<String> = Vec::new();
            let mut out: Vec<JsonValue> = Vec::new();
            let mut i: usize = 0;
            while i < keys.len() && i < values.len()
                invariant
                    0 <= i <= member_count_stored(keys@, values@),
                    *s == StoredValue::Object(*keys, *values),
                    ks@ == keys@.subrange(0, i as int),
                    out@.len() == i,
                    forall|k: int| 0 <= k < i ==> #[trigger] restored_of(values@[k], out@[k]),
                decreases values@.len() - i,
            {
                proof {
                    broadcast use vstd::std_specs::vec::axiom_vec_index_decreases;

                    assert(decreases_to!(*s => s->Object_1));
                    assert(decreases_to!(s->Object_1 => s->Object_1[i as int]));
                }
                let j = from_stored(&values[i]);
                ks.push(keys[i].clone());
                let ghost prev = out@;
                out.push(j);
                proof {
                    assert(ks@ =~= keys@.subrange(0, i + 1));
                    assert forall|k: int| 0 <= k < i + 1 implies #[trigger] restored_of(values@[k], out@[k]) by {
                        if k < i {
                            assert(out@[k] == prev[k]);
                            assert(restored_of(values@[k], prev[k]));
                        }
                    }
                }
                i = i + 1;
            }
            assert(i == member_count_stored(keys@, values@));
            assert(forall|k: int| 0 <= k < out@.len() ==> restored_of(values@[k], out@[k]));
            assert(*s == StoredValue::Object(*keys, *values));
            let r = JsonValue::Object { keys: ks, values: out };
            proof {
                assert(r->Object_keys@ == ks@ && r->Object_values@ == out@);
                assert(restored_of(*s, r));
            }
            r
        },
    }
}

/// Relies on tantivy's `OwnedValue` variants and serde_json's `Number::as_f64`: each stored
/// value as the index's value of the same kind, a float as its `f64` (null when it has
/// none), arrays and objects element by element.
#[verifier::external_body]
pub(crate) fn owned_from_stored(v: StoredValue) -> (r: OwnedValue) {
    match v {
        StoredValue::Null => OwnedValue::Null,
        StoredValue::Bool(b) => OwnedValue::Bool(b),
        StoredValue::I64(i) => OwnedValue::I64(i),
        StoredValue::U64(u) => OwnedValue::U64(u),
        StoredValue::Float(n) => n.as_f64().map_or(OwnedValue::Null, OwnedValue::F64),
        StoredValue::Str(t) => OwnedValue::Str(t),
        StoredValue::Array(a) => OwnedValue::Array(a.into_iter().map(owned_from_stored).collect()),
        StoredValue::Object(k, v) => OwnedValue::Object(k.into_iter().zip(v.into_iter().map(owned_from_stored)).collect()),
    }
}

/// The members of a metadata map in stored form, for the index's JSON object field.
pub fn metadata_to_members(metadata: &Metadata) -> (r: Vec<(String, StoredValue)>)
    ensures
        r@.len() == metadata.spec_entries().len(),
        forall|i: int| 0 <= i < r@.len() ==> #[trigger] r@[i].0 == metadata.spec_entries()[i].0
            && stored_of(metadata.spec_entries()[i].1, r@[i].1),
{
    let mut out: Vec<(String, StoredValue)> = Vec::new();
    let mut i: usize = 0;
    while i < metadata.len()
        invariant
            0 <= i <= metadata.spec_entries().len(),
            out@.len() == i,
            forall|k: int| 0 <= k < i ==> #[trigger] out@[k].0 == metadata.spec_entries()[k].0
                && stored_of(metadata.spec_entries()[k].1, out@[k].1),
        decreases metadata.spec_entries().len() - i,
    {
        let e = metadata.entry(i);
        out.push((e.0.clone(), to_stored(&e.1)));
        i = i + 1;
    }
    out
}

/// One level of a value the index returns: its kind and its direct parts.
pub enum StoredNode {
    Null,
    Bool(bool),
    I64(i64),
    U64(u64),
    /// A float, as a JSON number when it is finite.
    Float(Option<serde_json::Number>),
    Str(String),
    Array(Vec<OwnedValue>),
    Object(Vec<(String, OwnedValue)>),
    /// A date, facet, byte string or address, which metadata never holds.
    Unsupported,
}

/// Relies on tantivy's `OwnedValue` variants and serde_json's `Number::from_f64`: one level
/// of a returned value, each variant to its counterpart.
#[verifier::external_body]
fn stored_node(v: OwnedValue) -> (r: StoredNode) {
    match v {
        OwnedValue::Null => StoredNode::Null,
        OwnedValue::Bool(b) => StoredNode::Bool(b),
        OwnedValue::I64(i) => StoredNode::I64(i),
        OwnedValue::U64(u) => StoredNode::U64(u),
        OwnedValue::F64(f) => StoredNode::Float(serde_json::Number::from_f64(f)),
        OwnedValue::Str(s) => StoredNode::Str(s),
        OwnedValue::PreTokStr(p) => StoredNode::Str(p.text),
        OwnedValue::Array(a) => StoredNode::Array(a),
        OwnedValue::Object(o) => StoredNode::Object(o),
        _ => StoredNode::Unsupported,
    }
}

/// How deeply a returned value may nest before it is refused.
pub const MAX_METADATA_DEPTH: usize = 128;

/// Reads a value the index returned into stored form, one level at a time with
/// `stored_from_node`; `None` when it nests deeper than `depth` levels.
pub fn stored_from_owned(v: OwnedValue, depth: usize) -> (r: Option<StoredValue>)
    decreases depth, 1int,
{
    stored_from_node(stored_node(v), depth)
}

/// Reads one level of a returned value into stored form. Null, kinds that metadata never
/// holds, and floats without a JSON form read as null; booleans, integers, strings and
/// finite floats map one for one. An array or object at depth 0 is refused (`None`);
/// otherwise its parts are read at one level less, and it keeps its length and, for an
/// object, its keys in order, or is refused when a part is.
pub fn stored_from_node(node: StoredNode, depth: usize) -> (r: Option<StoredValue>)
    ensures
        match node {
            StoredNode::Null | StoredNode::Unsupported | StoredNode::Float(None) => r == Some(StoredValue::Null),
            StoredNode::Bool(b) => r == Some(StoredValue::Bool(b)),
            StoredNode::I64(i) => r == Some(StoredValue::I64(i)),
            StoredNode::U64(u) => r == Some(StoredValue::U64(u)),
            StoredNode::Float(Some(n)) => r == Some(StoredValue::Float(n)),
            StoredNode::Str(t) => r == Some(StoredValue::Str(t)),
            StoredNode::Array(items) => (depth == 0 ==> r is None) && (r matches Some(s) ==> s
                matches StoredValue::Array(a) && a@.len() == items@.len()),
            StoredNode::Object(members) => (depth == 0 ==> r is None) && (r matches Some(s) ==> s
                matches StoredValue::Object(k, v) && k@.len() == members@.len() && v@.len()
                == members@.len() && forall|i: int| 0 <= i < k@.len() ==> #[trigger] k@[i] == members@[i].0),
        },
    decreases depth, 0int,
{
    let ghost node0 = node;
    match node {
        StoredNode::Null => Some(StoredValue::Null),
        StoredNode::Bool(b) => Some(StoredValue::Bool(b)),
        StoredNode::I64(i) => Some(StoredValue::I64(i)),
        StoredNode::U64(u) => Some(StoredValue::U64(u)),
        StoredNode::Float(Some(n)) => Some(StoredValue::Float(n)),
        StoredNode::Float(None) => Some(StoredValue::Null),
        StoredNode::Str(s) => Some(StoredValue::Str(s)),
        StoredNode::Unsupported => Some(StoredValue::Null),
        StoredNode::Array(items) => {
            if depth == 0 {
                return None;
            }
            let ghost all = items@;
            let mut out: Vec<StoredValue> = Vec::new();
            let mut rest = items;
            while rest.len() > 0
                invariant
                    depth > 0,
                    node0 == node && node0 is Array && node0->Array_0@ == all,
                    out@.len() + rest@.len() == all.len(),
                decreases rest@.len(),
            {
                let item = rest.remove(0);
                match stored_from_owned(item, depth - 1) {
                    Some(j) => out.push(j),
                    None => { return None; },
                }
            }
            Some(StoredValue::Array(out))
        },
        StoredNode::Object(members) => {
            if depth == 0 {
                return None;
            }
            let ghost all = members@;
            let mut keys: Vec<String> = Vec::new();
            let mut values: Vec<StoredValue> = Vec::new();
            let mut rest = members;
            while rest.len() > 0
                invariant
                    depth > 0,
                    node0 == node && node0 is Object && node0->Object_0@ == all,
                    keys@.len() == values@.len(),
                    keys@.len() + rest@.len() == all.len(),
                    rest@ == all.subrange(keys@.len() as int, all.len() as int),
                    forall|i: int| 0 <= i < keys@.len() ==> #[trigger] keys@[i] == all[i].0,
                decreases rest@.len(),
            {
                let ghost n = keys@.len() as int;
                let (k, item) = rest.remove(0);
                proof {
                    assert(k == all[n].0);
                }
                match stored_from_owned(item, depth - 1) {
                    Some(j) => {
                        keys.push(k);
                        values.push(j);
                    },
                    None => { return None; },
                }
                proof {
                    assert(rest@ =~= all.subrange(n + 1, all.len() as int));
                }
            }
            Some(StoredValue::Object(keys, values))
        },
    }
}

/// Rebuilds a metadata map from stored members: every member's key is present, and each
/// present value is the restored value of a member with that key (the last one, where a
/// key repeats).
pub fn metadata_from_stored(members: Vec<(String, StoredValue)>) -> (r: Metadata)
    ensures
        r.wf(),
        forall|i: int| 0 <= i < members@.len() ==> (#[trigger] r.spec_get(members@[i].0@)) is Some,
        forall|k: Seq<char>| (#[trigger] r.spec_get(k)) is Some ==> exists|i: int|
            0 <= i < members@.len() && members@[i].0@ == k && restored_of(members@[i].1, r.spec_get(k)->Some_0),
{
    let ghost all = members@;
    let total: usize = members.len();
    let mut md = Metadata::new();
    let mut rest = members;
    let mut n: usize = 0;
    while rest.len() > 0
        invariant
            md.wf(),
            all.len() == total,
            n + rest@.len() == all.len(),
            rest@ == all.subrange(n as int, all.len() as int),
            forall|i: int| 0 <= i < n ==> (#[trigger] md.spec_get(all[i].0@)) is Some,
            forall|k: Seq<char>| (#[trigger] md.spec_get(k)) is Some ==> exists|i: int|
                0 <= i < n && all[i].0@ == k && restored_of(all[i].1, md.spec_get(k)->Some_0),
        decreases rest@.len(),
    {
        let (k, v) = rest.remove(0);
        proof {
            assert(k == all[n as int].0 && v == all[n as int].1);
        }
        let j = from_stored(&v);
        let ghost kv = k@;
        let ghost before = md;
        md.insert(k, j);
        proof {
            assert forall|i: int| 0 <= i < n + 1 implies (#[trigger] md.spec_get(all[i].0@)) is Some by {
                if all[i].0@ != kv {
                    assert(before.spec_get(all[i].0@) is Some);
                }
            }
            assert forall|q: Seq<char>| (#[trigger] md.spec_get(q)) is Some implies exists|i: int|
                0 <= i < n + 1 && all[i].0@ == q && restored_of(all[i].1, md.spec_get(q)->Some_0) by {
                if q == kv {
                    assert(all[n as int].0@ == q);
                } else {
                    assert(before.spec_get(q) == md.spec_get(q));
                    let i = choose|i: int| 0 <= i < n && all[i].0@ == q && restored_of(all[i].1, md.spec_get(q)->Some_0);
                }
            }
            assert(rest@ =~= all.subrange(n + 1, all.len() as int));
        }
        n = n + 1;
    }
    md
}

} // verus!
