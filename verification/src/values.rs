//! The generic call values exchanged between the host and a loaded routine.

use vstd::prelude::*;

verus! {

/// A call value as the host hands it to the engine and as the engine hands
/// it back: absent ("null"), a 64-bit integer, or a sequence of 64-bit
/// integers.
#[derive(PartialEq, Eq, Debug)]
pub enum Value {
    Null,
    Int(i64),
    IntSeq(Vec<i64>),
}

impl Clone for Value {
    fn clone(&self) -> (r: Value)
        ensures
            r@ == self@,
    {
        match self {
            Value::Null => Value::Null,
            Value::Int(n) => Value::Int(*n),
            Value::IntSeq(v) => {
                let mut out: Vec<i64> = Vec::new();
                let mut i: usize = 0;
                while i < v.len()
                    invariant
                        i <= v@.len(),
                        out@ == v@.take(i as int),
                    decreases v@.len() - i,
                {
                    out.push(v[i]);
                    proof {
                        assert(out@ =~= v@.take(i + 1 as int));
                    }
                    i = i + 1;
                }
                proof {
                    assert(out@ =~= v@);
                }
                Value::IntSeq(out)
            },
        }
    }
}

/// The mathematical shape of a [`Value`].
pub enum ValueView {
    Null,
    Int(i64),
    IntSeq(Seq<i64>),
}

impl View for Value {
    type V = ValueView;

    open spec fn view(&self) -> ValueView {
        match self {
            Value::Null => ValueView::Null,
            Value::Int(n) => ValueView::Int(*n),
            Value::IntSeq(v) => ValueView::IntSeq(v@),
        }
    }
}

impl DeepView for Value {
    type V = ValueView;

    open spec fn deep_view(&self) -> ValueView {
        self.view()
    }
}

/// The declared type of one routine parameter or of a routine's result.
#[derive(Clone, Copy, PartialEq, Eq, Structural, Debug)]
pub enum ValueType {
    Int,
    IntSeq,
}

} // verus!
