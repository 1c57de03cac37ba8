//! The values that cross the boundary between host and component, their
//! kinds, and the typed parameter and result lists built from them.

use vstd::prelude::*;

verus! {

/// The kind of a value, as a function's declaration names it.
#[derive(Clone, Copy, Debug, PartialEq, Eq, Structural)]
pub enum ValueKind {
    Bool,
    S32,
    U32,
    S64,
    U64,
    Char,
    Text,
    /// A kind that the component declares and this layer does not marshal.
    Other,
}

/// One value on its way across the boundary.
#[derive(Clone, Debug, PartialEq, Eq)]
pub enum Value {
    Bool(bool),
    S32(i32),
    U32(u32),
    S64(i64),
    U64(u64),
    Char(char),
    Text(String),
}

/// What a `Value` stands for: the same cases, with text as a sequence of
/// characters.
pub enum ValueView {
    Bool(bool),
    S32(i32),
    U32(u32),
    S64(i64),
    U64(u64),
    Char(char),
    Text(Seq<char>),
}

impl ValueView {
    pub open spec fn kind(self) -> ValueKind {
        match self {
            ValueView::Bool(_) => ValueKind::Bool,
            ValueView::S32(_) => ValueKind::S32,
            ValueView::U32(_) => ValueKind::U32,
            ValueView::S64(_) => ValueKind::S64,
            ValueView::U64(_) => ValueKind::U64,
            ValueView::Char(_) => ValueKind::Char,
            ValueView::Text(_) => ValueKind::Text,
        }
    }
}

impl View for Value {
    type V = ValueView;

    open spec fn view(&self) -> ValueView {
        match self {
            Value::Bool(b) => ValueView::Bool(*b),
            Value::S32(n) => ValueView::S32(*n),
            Value::U32(n) => ValueView::U32(*n),
            Value::S64(n) => ValueView::S64(*n),
            Value::U64(n) => ValueView::U64(*n),
            Value::Char(c) => ValueView::Char(*c),
            Value::Text(s) => ValueView::Text(s@),
        }
    }
}

impl Value {
    /// The kind of this value. It is never `ValueKind::Other`.
    pub fn kind(&self) -> (k: ValueKind)
        ensures
            k == self@.kind(),
            k != ValueKind::Other,
    {
        match self {
            Value::Bool(_) => ValueKind::Bool,
            Value::S32(_) => ValueKind::S32,
            Value::U32(_) => ValueKind::U32,
            Value::S64(_) => ValueKind::S64,
            Value::U64(_) => ValueKind::U64,
            Value::Char(_) => ValueKind::Char,
            Value::Text(_) => ValueKind::Text,
        }
    }
}

/// What a list of values stands for, item by item.
pub open spec fn views(values: Seq<Value>) -> Seq<ValueView> {
    values.map_values(|v: Value| v@)
}

/// The kinds of a list of values, item by item.
pub open spec fn kinds_of(values: Seq<ValueView>) -> Seq<ValueKind> {
    values.map_values(|v: ValueView| v.kind())
}

/// Tells whether two lists of kinds are the same list.
pub fn same_kinds(left: &Vec<ValueKind>, right: &Vec<ValueKind>) -> (same: bool)
    ensures
        same == (left@ == right@),
{
    if left.len() != right.len() {
        return false;
    }
    let mut i: usize = 0;
    while i < left.len()
        invariant
            left.len() == right.len(),
            i <= left.len(),
            forall|j: int| 0 <= j < i ==> left@[j] == right@[j],
        decreases left.len() - i,
    {
        if left[i] != right[i] {
            return false;
        }
        i += 1;
    }
    assert(left@ =~= right@);
    true
}

/// The declared shape of a function: the kinds of its parameters and of its
/// results, in order.
#[derive(Clone, Debug, PartialEq, Eq)]
pub struct Signature {
    pub params: Vec<ValueKind>,
    pub results: Vec<ValueKind>,
}

impl View for Signature {
    type V = (Seq<ValueKind>, Seq<ValueKind>);

    open spec fn view(&self) -> (Seq<ValueKind>, Seq<ValueKind>) {
        (self.params@, self.results@)
    }
}

impl Signature {
    /// Tells whether `self` and `other` declare the same parameters and the
    /// same results, in number and in kind.
    pub fn agrees_with(&self, other: &Signature) -> (same: bool)
        ensures
            same == (self@ == other@),
    {
        same_kinds(&self.params, &other.params) && same_kinds(&self.results, &other.results)
    }
}

/// A host type that crosses the boundary as one value.
pub trait Marshal: Sized {
    /// The kind under which values of this type cross.
    spec fn kind() -> ValueKind;

    /// The value as which `self` crosses.
    spec fn model(&self) -> ValueView;

    /// The kind under which values of this type cross.
    fn kind_of() -> (k: ValueKind)
        ensures
            k == Self::kind(),
            k != ValueKind::Other,
    ;

    /// Turns a host value into the value that crosses.
    fn lower(self) -> (value: Value)
        ensures
            value@ == self.model(),
            value@.kind() == Self::kind(),
    ;

    /// Turns a value that crossed into a host value: `Some` exactly when the
    /// value is of this type's kind, and then the one that lowers to it.
    fn lift(value: Value) -> (lifted: Option<Self>)
        ensures
            lifted is Some <==> value@.kind() == Self::kind(),
            lifted matches Some(x) ==> x.model() == value@,
    ;
}

impl Marshal for bool {
    open spec fn kind() -> ValueKind {
        ValueKind::Bool
    }

    open spec fn model(&self) -> ValueView {
        ValueView::Bool(*self)
    }

    fn kind_of() -> (k: ValueKind) {
        ValueKind::Bool
    }

    fn lower(self) -> (value: Value) {
        Value::Bool(self)
    }

    fn lift(value: Value) -> (lifted: Option<Self>) {
        match value {
            Value::Bool(b) => Some(b),
            _ => None,
        }
    }
}

impl Marshal for i32 {
    open spec fn kind() -> ValueKind {
        ValueKind::S32
    }

    open spec fn model(&self) -> ValueView {
        ValueView::S32(*self)
    }

    fn kind_of() -> (k: ValueKind) {
        ValueKind::S32
    }

    fn lower(self) -> (value: Value) {
        Value::S32(self)
    }

    fn lift(value: Value) -> (lifted: Option<Self>) {
        match value {
            Value::S32(n) => Some(n),
            _ => None,
        }
    }
}

impl Marshal for u32 {
    open spec fn kind() -> ValueKind {
        ValueKind::U32
    }

    open spec fn model(&self) -> ValueView {
        ValueView::U32(*self)
    }

    fn kind_of() -> (k: ValueKind) {
        ValueKind::U32
    }

    fn lower(self) -> (value: Value) {
        Value::U32(self)
    }

    fn lift(value: Value) -> (lifted: Option<Self>) {
        match value {
            Value::U32(n) => Some(n),
            _ => None,
        }
    }
}

impl Marshal for i64 {
    open spec fn kind() -> ValueKind {
        ValueKind::S64
    }

    open spec fn model(&self) -> ValueView {
        ValueView::S64(*self)
    }

    fn kind_of() -> (k: ValueKind) {
        ValueKind::S64
    }

    fn lower(self) -> (value: Value) {
        Value::S64(self)
    }

    fn lift(value: Value) -> (lifted: Option<Self>) {
        match value {
            Value::S64(n) => Some(n),
            _ => None,
        }
    }
}

impl Marshal for u64 {
    open spec fn kind() -> ValueKind {
        ValueKind::U64
    }

    open spec fn model(&self) -> ValueView {
        ValueView::U64(*self)
    }

    fn kind_of() -> (k: ValueKind) {
        ValueKind::U64
    }

    fn lower(self) -> (value: Value) {
        Value::U64(self)
    }

    fn lift(value: Value) -> (lifted: Option<Self>) {
        match value {
            Value::U64(n) => Some(n),
            _ => None,
        }
    }
}

impl Marshal for char {
    open spec fn kind() -> ValueKind {
        ValueKind::Char
    }

    open spec fn model(&self) -> ValueView {
        ValueView::Char(*self)
    }

    fn kind_of() -> (k: ValueKind) {
        ValueKind::Char
    }

    fn lower(self) -> (value: Value) {
        Value::Char(self)
    }

    fn lift(value: Value) -> (lifted: Option<Self>) {
        match value {
            Value::Char(c) => Some(c),
            _ => None,
        }
    }
}

impl Marshal for String {
    open spec fn kind() -> ValueKind {
        ValueKind::Text
    }

    open spec fn model(&self) -> ValueView {
        ValueView::Text(self@)
    }

    fn kind_of() -> (k: ValueKind) {
        ValueKind::Text
    }

    fn lower(self) -> (value: Value) {
        Value::Text(self)
    }

    fn lift(value: Value) -> (lifted: Option<Self>) {
        match value {
            Value::Text(s) => Some(s),
            _ => None,
        }
    }
}

} // verus!
