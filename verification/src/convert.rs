//! Values and declared types, turned between the runtime's representation
//! and this layer's, one by one and list by list.

use vstd::prelude::*;
use crate::value::{Value, ValueKind, ValueView};

verus! {

/// The kind under which this layer knows a declared type: `Other` for every
/// type that it does not marshal.
pub open spec fn kind_of(declared: wasmtime::component::Type) -> ValueKind {
    match declared {
        wasmtime::component::Type::Bool => ValueKind::Bool,
        wasmtime::component::Type::S32 => ValueKind::S32,
        wasmtime::component::Type::U32 => ValueKind::U32,
        wasmtime::component::Type::S64 => ValueKind::S64,
        wasmtime::component::Type::U64 => ValueKind::U64,
        wasmtime::component::Type::Char => ValueKind::Char,
        wasmtime::component::Type::String => ValueKind::Text,
        _ => ValueKind::Other,
    }
}

/// The kinds under which this layer knows declared types, in order.
pub open spec fn kinds_of_declared(types: Seq<wasmtime::component::Type>) -> Seq<ValueKind> {
    types.map_values(|t: wasmtime::component::Type| kind_of(t))
}

/// What a value of the runtime stands for in this layer: `None` for one of
/// a kind that this layer does not marshal.
pub open spec fn value_of(val: wasmtime::component::Val) -> Option<ValueView> {
    match val {
        wasmtime::component::Val::Bool(b) => Some(ValueView::Bool(b)),
        wasmtime::component::Val::S32(n) => Some(ValueView::S32(n)),
        wasmtime::component::Val::U32(n) => Some(ValueView::U32(n)),
        wasmtime::component::Val::S64(n) => Some(ValueView::S64(n)),
        wasmtime::component::Val::U64(n) => Some(ValueView::U64(n)),
        wasmtime::component::Val::Char(c) => Some(ValueView::Char(c)),
        wasmtime::component::Val::String(s) => Some(ValueView::Text(s@)),
        _ => None,
    }
}

/// Tells whether `vals` stand, one for one, for `values`.
pub open spec fn stand_for(vals: Seq<wasmtime::component::Val>, values: Seq<ValueView>) -> bool {
    &&& vals.len() == values.len()
    &&& forall|i: int| 0 <= i < vals.len() ==> value_of(#[trigger] vals[i]) == Some(values[i])
}

/// Tells whether this layer marshals every value of `vals`.
pub open spec fn all_marshalable(vals: Seq<wasmtime::component::Val>) -> bool {
    forall|i: int| 0 <= i < vals.len() ==> value_of(#[trigger] vals[i]) is Some
}

/// The kind under which this layer knows a declared type.
pub fn kind_of_type(declared: &wasmtime::component::Type) -> (kind: ValueKind)
    ensures
        kind == kind_of(*declared),
{
    match declared {
        wasmtime::component::Type::Bool => ValueKind::Bool,
        wasmtime::component::Type::S32 => ValueKind::S32,
        wasmtime::component::Type::U32 => ValueKind::U32,
        wasmtime::component::Type::S64 => ValueKind::S64,
        wasmtime::component::Type::U64 => ValueKind::U64,
        wasmtime::component::Type::Char => ValueKind::Char,
        wasmtime::component::Type::String => ValueKind::Text,
        _ => ValueKind::Other,
    }
}

/// The kinds under which this layer knows the declared types, in order.
pub fn kinds_of_types(types: &Vec<wasmtime::component::Type>) -> (kinds: Vec<ValueKind>)
    ensures
        kinds@ == kinds_of_declared(types@),
{
    let mut kinds: Vec<ValueKind> = Vec::new();
    let mut i: usize = 0;
    while i < types.len()
        invariant
            i <= types.len(),
            kinds@.len() == i,
            forall|j: int| 0 <= j < i ==> kinds@[j] == kind_of(types@[j]),
        decreases types.len() - i,
    {
        kinds.push(kind_of_type(&types[i]));
        i += 1;
    }
    proof {
        assert(kinds@ =~= kinds_of_declared(types@));
    }
    kinds
}

/// The runtime's value that stands for `value`.
pub fn to_val(value: &Value) -> (val: wasmtime::component::Val)
    ensures
        value_of(val) == Some(value@),
{
    match value {
        Value::Bool(b) => wasmtime::component::Val::Bool(*b),
        Value::S32(n) => wasmtime::component::Val::S32(*n),
        Value::U32(n) => wasmtime::component::Val::U32(*n),
        Value::S64(n) => wasmtime::component::Val::S64(*n),
        Value::U64(n) => wasmtime::component::Val::U64(*n),
        Value::Char(c) => wasmtime::component::Val::Char(*c),
        Value::Text(s) => wasmtime::component::Val::String(s.clone()),
    }
}

/// This layer's value for one of the runtime: `None` exactly for one of a
/// kind that this layer does not marshal.
pub fn from_val(val: &wasmtime::component::Val) -> (value: Option<Value>)
    ensures
        match value {
            Some(v) => value_of(*val) == Some(v@),
            None => value_of(*val) is None,
        },
{
    match val {
        wasmtime::component::Val::Bool(b) => Some(Value::Bool(*b)),
        wasmtime::component::Val::S32(n) => Some(Value::S32(*n)),
        wasmtime::component::Val::U32(n) => Some(Value::U32(*n)),
        wasmtime::component::Val::S64(n) => Some(Value::S64(*n)),
        wasmtime::component::Val::U64(n) => Some(Value::U64(*n)),
        wasmtime::component::Val::Char(c) => Some(Value::Char(*c)),
        wasmtime::component::Val::String(s) => Some(Value::Text(s.clone())),
        _ => None,
    }
}

/// The runtime's values that stand for `values`, in order.
pub fn to_vals(values: &Vec<Value>) -> (vals: Vec<wasmtime::component::Val>)
    ensures
        stand_for(vals@, crate::value::views(values@)),
{
    let mut vals: Vec<wasmtime::component::Val> = Vec::new();
    let mut i: usize = 0;
    while i < values.len()
        invariant
            i <= values.len(),
            vals@.len() == i,
            forall|j: int| 0 <= j < i ==> value_of(#[trigger] vals@[j]) == Some(values@[j]@),
        decreases values.len() - i,
    {
        vals.push(to_val(&values[i]));
        i += 1;
    }
    vals
}

/// This layer's values for the runtime's, in order: `None` exactly where
/// one of them is of a kind that this layer does not marshal.
pub fn from_vals(vals: &[wasmtime::component::Val]) -> (values: Option<Vec<Value>>)
    ensures
        match values {
            Some(v) => stand_for(vals@, crate::value::views(v@)),
            None => !all_marshalable(vals@),
        },
{
    let mut values: Vec<Value> = Vec::new();
    let mut i: usize = 0;
    while i < vals.len()
        invariant
            i <= vals.len(),
            values@.len() == i,
            forall|j: int| 0 <= j < i ==> value_of(#[trigger] vals@[j]) == Some(values@[j]@),
        decreases vals.len() - i,
    {
        match from_val(&vals[i]) {
            Some(value) => values.push(value),
            None => {
                return None;
            },
        }
        i += 1;
    }
    Some(values)
}

} // verus!
