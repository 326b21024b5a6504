//! `Atomics.<op>(...)` static calls on `globalThis.Atomics`.

use vstd::prelude::*;

use crate::hir::Expr;
use crate::ir::{args_view, copy_operand, operands_view, Arg, FnBuilder, FnBuilderV, InstV, JsTag, Operand, OperandV, Ty};
use crate::text::str_eq;

verus! {

/// Whether `e` reads `Atomics` off a global (`globalThis.Atomics`).
pub open spec fn is_global_this_atomics_spec(e: Expr) -> bool {
    match e {
        Expr::PropertyGet { object, property } => property@ == "Atomics"@ && (*object is GlobalGet),
        _ => false,
    }
}

/// Whether `e` reads `Atomics` off a global (`globalThis.Atomics`).
pub fn is_global_this_atomics_expr(e: &Expr) -> (res: bool)
    ensures
        res == is_global_this_atomics_spec(*e),
{
    match e {
        Expr::PropertyGet { object, property } => str_eq(property.as_str(), "Atomics") && matches!(
            **object,
            Expr::GlobalGet(_)
        ),
        _ => false,
    }
}

/// The runtime function and the number of value arguments of each
/// `Atomics` operation.
pub open spec fn atomics_op_spec(op: Seq<char>) -> Option<(Seq<char>, nat)> {
    if op == "load"@ {
        Some(("js_atomics_load"@, 2))
    } else if op == "store"@ {
        Some(("js_atomics_store"@, 3))
    } else if op == "add"@ {
        Some(("js_atomics_add"@, 3))
    } else if op == "sub"@ {
        Some(("js_atomics_sub"@, 3))
    } else if op == "and"@ {
        Some(("js_atomics_and"@, 3))
    } else if op == "or"@ {
        Some(("js_atomics_or"@, 3))
    } else if op == "xor"@ {
        Some(("js_atomics_xor"@, 3))
    } else if op == "exchange"@ {
        Some(("js_atomics_exchange"@, 3))
    } else if op == "compareExchange"@ {
        Some(("js_atomics_compare_exchange"@, 4))
    } else {
        None
    }
}

/// The runtime function and arity of an `Atomics` operation.
pub fn atomics_op(op: &str) -> (res: Option<(&'static str, usize)>)
    ensures
        match (res, atomics_op_spec(op@)) {
            (Some((f, n)), Some((g, m))) => f@ == g && n == m,
            (None, None) => true,
            _ => false,
        },
{
    if str_eq(op, "load") {
        Some(("js_atomics_load", 2))
    } else if str_eq(op, "store") {
        Some(("js_atomics_store", 3))
    } else if str_eq(op, "add") {
        Some(("js_atomics_add", 3))
    } else if str_eq(op, "sub") {
        Some(("js_atomics_sub", 3))
    } else if str_eq(op, "and") {
        Some(("js_atomics_and", 3))
    } else if str_eq(op, "or") {
        Some(("js_atomics_or", 3))
    } else if str_eq(op, "xor") {
        Some(("js_atomics_xor", 3))
    } else if str_eq(op, "exchange") {
        Some(("js_atomics_exchange", 3))
    } else if str_eq(op, "compareExchange") {
        Some(("js_atomics_compare_exchange", 4))
    } else {
        None
    }
}

/// The value arguments of an `Atomics` call of arity `n`: the first `n`
/// lowered arguments, `undefined` for each missing one; extra arguments are
/// evaluated but not passed.
pub open spec fn atomics_values(vals: Seq<OperandV>, n: nat) -> Seq<(Ty, OperandV)> {
    Seq::new(n, |i: int| (Ty::Double, if i < vals.len() { vals[i] } else { OperandV::Tag(JsTag::Undefined) }))
}

/// The operation an `Atomics` call names, when `callee` is
/// `globalThis.Atomics.<op>` with a known `op`.
pub open spec fn atomics_call_op(callee: Expr) -> Option<(Seq<char>, nat)> {
    match callee {
        Expr::PropertyGet { object, property } => if is_global_this_atomics_spec(*object) {
            atomics_op_spec(property@)
        } else {
            None
        },
        _ => None,
    }
}

/// Lowers `Atomics.<op>(args)` when `callee` is `globalThis.Atomics.<op>`
/// for a known operation: `call double @js_atomics_<op>(ptr null, double
/// a0, ...)` with exactly the operation's arity of value arguments. `None`,
/// with nothing emitted, for any other callee.
pub fn try_lower_atomics_static_call(b: &mut FnBuilder, callee: &Expr, lowered_args: &Vec<Operand>) -> (res:
    Option<Operand>)
    requires
        old(b)@.wf(),
        old(b)@.next_reg < u64::MAX,
    ensures
        match atomics_call_op(*callee) {
            None => res is None && final(b)@ == old(b)@,
            Some((runtime, n)) => {
                let r = old(b)@.next_reg;
                &&& res matches Some(o) && o@ == OperandV::Reg(r as u64)
                &&& final(b)@ == (FnBuilderV { next_reg: r + 1, ..old(b)@ }).append_cur(
                    seq![
                        InstV::Call {
                            dest: Some(r as u64),
                            ret: Ty::Double,
                            callee: runtime,
                            args: seq![(Ty::Ptr, OperandV::Null)] + atomics_values(operands_view(lowered_args@), n),
                        },
                    ],
                )
            },
        },
        final(b)@.wf(),
{
    let (object, property) = match callee {
        Expr::PropertyGet { object, property } => (object, property),
        _ => return None,
    };
    if !is_global_this_atomics_expr(object) {
        return None;
    }
    let (runtime_fn, arity) = match atomics_op(property.as_str()) {
        Some(x) => x,
        None => return None,
    };
    let ghost vv = operands_view(lowered_args@);
    let ghost want = seq![(Ty::Ptr, OperandV::Null)] + atomics_values(vv, arity as nat);
    let mut call_args: Vec<Arg> = Vec::new();
    call_args.push((Ty::Ptr, Operand::Null));
    let mut i: usize = 0;
    while i < arity
        invariant
            i <= arity,
            arity <= 4,
            vv == operands_view(lowered_args@),
            want == seq![(Ty::Ptr, OperandV::Null)] + atomics_values(vv, arity as nat),
            args_view(call_args@) =~= want.take(i + 1),
        decreases arity - i,
    {
        let v = if i < lowered_args.len() {
            copy_operand(&lowered_args[i])
        } else {
            Operand::Tag(JsTag::Undefined)
        };
        let ghost prev = call_args@;
        call_args.push((Ty::Double, v));
        proof {
            assert(args_view(call_args@) =~= args_view(prev).push((Ty::Double, v@)));
            assert(want.take(i + 2) =~= want.take(i + 1).push(want[i + 1]));
        }
        i = i + 1;
    }
    assert(want.take(arity + 1) =~= want);
    let r = b.call(Ty::Double, runtime_fn, call_args);
    Some(Operand::Reg(r))
}


/// Each `Atomics` operation calls the runtime function of its own name
/// (`js_atomics_<op>`, `compareExchange` as `js_atomics_compare_exchange`)
/// with as many values as the operation takes: the array and index, the
/// value for the writing operations, expected and replacement values for
/// `compareExchange`.
pub proof fn law_atomics_runtime_is_its_op(op: Seq<char>)
    ensures
        atomics_op_spec(op) matches Some((f, n)) ==> {
            &&& op != "compareExchange"@ ==> f == "js_atomics_"@ + op
            &&& op == "compareExchange"@ ==> f == "js_atomics_compare_exchange"@
            &&& n == if op == "load"@ {
                2nat
            } else if op == "compareExchange"@ {
                4nat
            } else {
                3nat
            }
        },
{
    reveal_strlit("js_atomics_");
    reveal_strlit("load");
    reveal_strlit("js_atomics_load");
    reveal_strlit("store");
    reveal_strlit("js_atomics_store");
    reveal_strlit("add");
    reveal_strlit("js_atomics_add");
    reveal_strlit("sub");
    reveal_strlit("js_atomics_sub");
    reveal_strlit("and");
    reveal_strlit("js_atomics_and");
    reveal_strlit("or");
    reveal_strlit("js_atomics_or");
    reveal_strlit("xor");
    reveal_strlit("js_atomics_xor");
    reveal_strlit("exchange");
    reveal_strlit("js_atomics_exchange");
    reveal_strlit("compareExchange");
    assert("js_atomics_load"@ =~= "js_atomics_"@ + "load"@);
    assert("js_atomics_store"@ =~= "js_atomics_"@ + "store"@);
    assert("js_atomics_add"@ =~= "js_atomics_"@ + "add"@);
    assert("js_atomics_sub"@ =~= "js_atomics_"@ + "sub"@);
    assert("js_atomics_and"@ =~= "js_atomics_"@ + "and"@);
    assert("js_atomics_or"@ =~= "js_atomics_"@ + "or"@);
    assert("js_atomics_xor"@ =~= "js_atomics_"@ + "xor"@);
    assert("js_atomics_exchange"@ =~= "js_atomics_"@ + "exchange"@);
}

} // verus!
