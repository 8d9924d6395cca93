//! The invocation trampoline: adapts the generic call arguments to the
//! native entry convention, calls the loaded entry, and converts the result
//! or the fault back.

use vstd::prelude::*;

use crate::artifact::EntryExpr;
use crate::errors::{FaultKind, InvocationError};
use crate::loader::LoadedHandle;
use crate::values::{Value, ValueView};

verus! {

/// Running sum of a sequence, left to right, with the accumulator held to
/// the 64-bit signed range at every step; `None` on overflow.
pub open spec fn seq_sum_step(acc: i64, s: Seq<i64>) -> Option<i64>
    decreases s.len(),
{
    if s.len() == 0 {
        Some(acc)
    } else if acc + s[0] > i64::MAX || acc + s[0] < i64::MIN {
        None
    } else {
        seq_sum_step((acc + s[0]) as i64, s.skip(1))
    }
}

/// Running product of a sequence, left to right, with the accumulator held
/// to the 64-bit signed range at every step; `None` on overflow.
pub open spec fn seq_product_step(acc: i64, s: Seq<i64>) -> Option<i64>
    decreases s.len(),
{
    if s.len() == 0 {
        Some(acc)
    } else if acc * s[0] > i64::MAX || acc * s[0] < i64::MIN {
        None
    } else {
        seq_product_step((acc * s[0]) as i64, s.skip(1))
    }
}

/// What the native entry yields on the given arguments: its value, or the
/// fault it raises.
pub open spec fn entry_eval(e: EntryExpr, args: Seq<ValueView>) -> Result<ValueView, FaultKind> {
    match e {
        EntryExpr::ConstNull => Ok(ValueView::Null),
        EntryExpr::ConstInt(n) => Ok(ValueView::Int(n)),
        EntryExpr::Arg(i) => if (i as int) < args.len() {
            Ok(args[i as int])
        } else {
            Err(FaultKind::ArgOutOfRange)
        },
        EntryExpr::FoldSum(i) => if (i as int) >= args.len() {
            Err(FaultKind::ArgOutOfRange)
        } else {
            match args[i as int] {
                ValueView::IntSeq(v) => match seq_sum_step(0, v) {
                    Some(n) => Ok(ValueView::Int(n)),
                    None => Err(FaultKind::Overflow),
                },
                _ => Err(FaultKind::TypeMismatch),
            }
        },
        EntryExpr::FoldProduct(i) => if (i as int) >= args.len() {
            Err(FaultKind::ArgOutOfRange)
        } else {
            match args[i as int] {
                ValueView::IntSeq(v) => match seq_product_step(1, v) {
                    Some(n) => Ok(ValueView::Int(n)),
                    None => Err(FaultKind::Overflow),
                },
                _ => Err(FaultKind::TypeMismatch),
            }
        },
        EntryExpr::Trap => Err(FaultKind::ExplicitTrap),
    }
}

/// Whether any call argument is null.
pub open spec fn has_null_arg(args: Seq<ValueView>) -> bool {
    exists|i: int| 0 <= i < args.len() && #[trigger] args[i] is Null
}

/// What an invocation through a handle yields. A strict routine with any
/// null argument yields null without the native entry being consulted;
/// otherwise the arguments must match the entry's arity, the entry runs,
/// and a fault inside it is caught and reported as a routine-execution
/// error, never allowed to cross the boundary raw.
pub open spec fn invoke_result(h: LoadedHandle, strict: bool, args: Seq<ValueView>) -> Result<
    ValueView,
    InvocationError,
> {
    if strict && has_null_arg(args) {
        Ok(ValueView::Null)
    } else if args.len() != h.arity {
        Err(InvocationError::MarshalMismatch)
    } else {
        match entry_eval(h.entry, args) {
            Ok(v) => Ok(v),
            Err(k) => Err(InvocationError::UserCodeFault(k)),
        }
    }
}

/// Whether an invocation actually enters the native entry: it does exactly
/// when neither the strict-null short circuit nor a marshaling mismatch
/// stops it first.
pub open spec fn invoke_enters(h: LoadedHandle, strict: bool, args: Seq<ValueView>) -> bool {
    !(strict && has_null_arg(args)) && args.len() == h.arity
}

/// A call counter one higher, saturating at the maximum.
pub open spec fn bumped(c: u64) -> u64 {
    if c < u64::MAX {
        (c + 1) as u64
    } else {
        c
    }
}

/// Sums an integer sequence with per-step overflow detection.
fn sum_ints(v: &Vec<i64>) -> (r: Option<i64>)
    ensures
        r == seq_sum_step(0, v@),
{
    let mut acc: i64 = 0;
    let mut k: usize = 0;
    proof {
        assert(v@.skip(0) =~= v@);
    }
    while k < v.len()
        invariant
            k <= v@.len(),
            seq_sum_step(0, v@) == seq_sum_step(acc, v@.skip(k as int)),
        decreases v@.len() - k,
    {
        proof {
            assert(v@.skip(k as int)[0] == v@[k as int]);
            assert(v@.skip(k as int).skip(1) =~= v@.skip(k + 1 as int));
        }
        match acc.checked_add(v[k]) {
            Some(n) => {
                acc = n;
            },
            None => {
                return None;
            },
        }
        k = k + 1;
    }
    proof {
        assert(v@.skip(k as int) =~= Seq::<i64>::empty());
    }
    Some(acc)
}

/// Multiplies an integer sequence with per-step overflow detection.
fn product_ints(v: &Vec<i64>) -> (r: Option<i64>)
    ensures
        r == seq_product_step(1, v@),
{
    let mut acc: i64 = 1;
    let mut k: usize = 0;
    proof {
        assert(v@.skip(0) =~= v@);
    }
    while k < v.len()
        invariant
            k <= v@.len(),
            seq_product_step(1, v@) == seq_product_step(acc, v@.skip(k as int)),
        decreases v@.len() - k,
    {
        proof {
            assert(v@.skip(k as int)[0] == v@[k as int]);
            assert(v@.skip(k as int).skip(1) =~= v@.skip(k + 1 as int));
        }
        match acc.checked_mul(v[k]) {
            Some(n) => {
                acc = n;
            },
            None => {
                return None;
            },
        }
        k = k + 1;
    }
    proof {
        assert(v@.skip(k as int) =~= Seq::<i64>::empty());
    }
    Some(acc)
}

/// Whether any of the supplied call values is null.
fn scan_null(args: &Vec<Value>) -> (r: bool)
    ensures
        r == has_null_arg(args.deep_view()),
{
    let mut i: usize = 0;
    while i < args.len()
        invariant
            i <= args@.len(),
            args.deep_view().len() == args@.len(),
            forall|j: int| 0 <= j < i ==> !(#[trigger] args.deep_view()[j] is Null),
        decreases args@.len() - i,
    {
        let is_null = match &args[i] {
            Value::Null => true,
            _ => false,
        };
        proof {
            assert(args.deep_view()[i as int] == args[i as int].deep_view());
        }
        if is_null {
            return true;
        }
        i = i + 1;
    }
    false
}

/// Invokes a loaded handle on the generic call arguments. The handle's
/// call counter advances exactly when the native entry is entered; the
/// handle is otherwise unchanged. Any fault the body raises comes back as
/// a routine-execution error; the call never tears down the process.
pub fn invoke(h: &mut LoadedHandle, strict: bool, args: &Vec<Value>) -> (r: Result<
    Value,
    InvocationError,
>)
    ensures
        final(h).entry == old(h).entry,
        final(h).arity == old(h).arity,
        final(h).generation == old(h).generation,
        final(h).calls == if invoke_enters(*old(h), strict, args.deep_view()) {
            bumped(old(h).calls)
        } else {
            old(h).calls
        },
        match (r, invoke_result(*old(h), strict, args.deep_view())) {
            (Ok(v), Ok(w)) => v@ == w,
            (Err(a), Err(b)) => a == b,
            _ => false,
        },
{
    if strict && scan_null(args) {
        return Ok(Value::Null);
    }
    if args.len() != h.arity {
        return Err(InvocationError::MarshalMismatch);
    }
    // The native entry is entered: count the call.
    if h.calls < u64::MAX {
        h.calls = h.calls + 1;
    }
    match h.entry {
        EntryExpr::ConstNull => Ok(Value::Null),
        EntryExpr::ConstInt(n) => Ok(Value::Int(n)),
        EntryExpr::Arg(i) => {
            if (i as usize) < args.len() {
                let v = args[i as usize].clone();
                proof {
                    assert(args.deep_view()[i as int] == args[i as int].deep_view());
                }
                Ok(v)
            } else {
                Err(InvocationError::UserCodeFault(FaultKind::ArgOutOfRange))
            }
        },
        EntryExpr::FoldSum(i) => {
            if (i as usize) >= args.len() {
                return Err(InvocationError::UserCodeFault(FaultKind::ArgOutOfRange));
            }
            proof {
                assert(args.deep_view()[i as int] == args[i as int].deep_view());
            }
            match &args[i as usize] {
                Value::IntSeq(v) => match sum_ints(v) {
                    Some(n) => Ok(Value::Int(n)),
                    None => Err(InvocationError::UserCodeFault(FaultKind::Overflow)),
                },
                _ => Err(InvocationError::UserCodeFault(FaultKind::TypeMismatch)),
            }
        },
        EntryExpr::FoldProduct(i) => {
            if (i as usize) >= args.len() {
                return Err(InvocationError::UserCodeFault(FaultKind::ArgOutOfRange));
            }
            proof {
                assert(args.deep_view()[i as int] == args[i as int].deep_view());
            }
            match &args[i as usize] {
                Value::IntSeq(v) => match product_ints(v) {
                    Some(n) => Ok(Value::Int(n)),
                    None => Err(InvocationError::UserCodeFault(FaultKind::Overflow)),
                },
                _ => Err(InvocationError::UserCodeFault(FaultKind::TypeMismatch)),
            }
        },
        EntryExpr::Trap => Err(InvocationError::UserCodeFault(FaultKind::ExplicitTrap)),
    }
}

} // verus!
