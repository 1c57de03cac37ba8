//! Typed parameter and result lists: the tuples of marshalable host types
//! under which a function is bound.

use vstd::prelude::*;
use crate::value::{kinds_of, views, Marshal, Value, ValueKind, ValueView};

verus! {

/// An ordered tuple of marshalable host types.
pub trait ValueList: Sized {
    /// The kinds of the tuple's items, in order.
    spec fn kinds() -> Seq<ValueKind>;

    /// The values as which the tuple's items cross, in order.
    spec fn models(&self) -> Seq<ValueView>;

    /// The kinds of the tuple's items, in order.
    fn kind_list() -> (kinds: Vec<ValueKind>)
        ensures
            kinds@ == Self::kinds(),
    ;

    /// Turns the tuple into the values that cross, in order.
    fn lower(self) -> (values: Vec<Value>)
        ensures
            views(values@) == self.models(),
            kinds_of(views(values@)) == Self::kinds(),
    ;

    /// Turns values that crossed into a tuple: `Some` exactly when they are as
    /// many as the tuple has items and each is of its item's kind, and then
    /// the tuple that lowers to them.
    fn lift(values: Vec<Value>) -> (lifted: Option<Self>)
        ensures
            lifted is Some <==> kinds_of(views(values@)) == Self::kinds(),
            lifted matches Some(x) ==> x.models() == views(values@),
    ;
}

impl ValueList for () {
    open spec fn kinds() -> Seq<ValueKind> {
        Seq::empty()
    }

    open spec fn models(&self) -> Seq<ValueView> {
        Seq::empty()
    }

    fn kind_list() -> (kinds: Vec<ValueKind>) {
        Vec::new()
    }

    fn lower(self) -> (values: Vec<Value>) {
        let values: Vec<Value> = Vec::new();
        proof {
            assert(views(values@) =~= Seq::<ValueView>::empty());
            assert(kinds_of(views(values@)) =~= Seq::<ValueKind>::empty());
        }
        values
    }

    fn lift(values: Vec<Value>) -> (lifted: Option<Self>) {
        if values.len() == 0 {
            proof {
                assert(views(values@) =~= Seq::<ValueView>::empty());
                assert(kinds_of(views(values@)) =~= Seq::<ValueKind>::empty());
            }
            Some(())
        } else {
            proof {
                assert(kinds_of(views(values@)).len() == values@.len());
            }
            None
        }
    }
}

impl<A: Marshal> ValueList for (A,) {
    open spec fn kinds() -> Seq<ValueKind> {
        seq![A::kind()]
    }

    open spec fn models(&self) -> Seq<ValueView> {
        seq![self.0.model()]
    }

    fn kind_list() -> (kinds: Vec<ValueKind>) {
        let mut kinds: Vec<ValueKind> = Vec::new();
        kinds.push(A::kind_of());
        proof {
            assert(kinds@ =~= seq![A::kind()]);
        }
        kinds
    }

    fn lower(self) -> (values: Vec<Value>) {
        let mut values: Vec<Value> = Vec::new();
        values.push(self.0.lower());
        proof {
            assert(views(values@) =~= seq![self.0.model()]);
            assert(kinds_of(views(values@)) =~= seq![A::kind()]);
        }
        values
    }

    fn lift(values: Vec<Value>) -> (lifted: Option<Self>) {
        let mut values = values;
        let ghost given = values@;
        proof {
            assert(kinds_of(views(given)).len() == given.len());
        }
        if values.len() != 1 {
            return None;
        }
        let first = values.pop().unwrap();
        proof {
            assert(kinds_of(views(given))[0] == given[0]@.kind());
            assert(first == given[0]);
        }
        match A::lift(first) {
            Some(a) => {
                proof {
                    assert(kinds_of(views(given)) =~= seq![A::kind()]);
                    assert(views(given) =~= seq![a.model()]);
                }
                Some((a,))
            },
            None => None,
        }
    }
}

impl<A: Marshal, B: Marshal> ValueList for (A, B) {
    open spec fn kinds() -> Seq<ValueKind> {
        seq![A::kind(), B::kind()]
    }

    open spec fn models(&self) -> Seq<ValueView> {
        seq![self.0.model(), self.1.model()]
    }

    fn kind_list() -> (kinds: Vec<ValueKind>) {
        let mut kinds: Vec<ValueKind> = Vec::new();
        kinds.push(A::kind_of());
        kinds.push(B::kind_of());
        proof {
            assert(kinds@ =~= seq![A::kind(), B::kind()]);
        }
        kinds
    }

    fn lower(self) -> (values: Vec<Value>) {
        let mut values: Vec<Value> = Vec::new();
        let ghost first = self.0.model();
        let ghost second = self.1.model();
        values.push(self.0.lower());
        values.push(self.1.lower());
        proof {
            assert(views(values@) =~= seq![first, second]);
            assert(kinds_of(views(values@)) =~= seq![A::kind(), B::kind()]);
        }
        values
    }

    fn lift(values: Vec<Value>) -> (lifted: Option<Self>) {
        let mut values = values;
        let ghost given = values@;
        proof {
            assert(kinds_of(views(given)).len() == given.len());
        }
        if values.len() != 2 {
            return None;
        }
        let second = values.pop().unwrap();
        let first = values.pop().unwrap();
        proof {
            assert(kinds_of(views(given))[0] == given[0]@.kind());
            assert(kinds_of(views(given))[1] == given[1]@.kind());
            assert(first == given[0]);
            assert(second == given[1]);
        }
        match A::lift(first) {
            Some(a) => match B::lift(second) {
                Some(b) => {
                    proof {
                        assert(kinds_of(views(given)) =~= seq![A::kind(), B::kind()]);
                        assert(views(given) =~= seq![a.model(), b.model()]);
                    }
                    Some((a, b))
                },
                None => None,
            },
            None => None,
        }
    }
}

} // verus!
