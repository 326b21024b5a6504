//! `EventTarget` listener calls and `AbortController` calls.

use vstd::prelude::*;

use std::collections::HashMap;

use crate::hir::{Expr, LocalId};
use crate::ir::{
    args_view, copy_operand, lemma_append_cur_twice, operands_view, FnBuilder, FnBuilderV, Inst, InstV, JsTag,
    Operand, OperandV, Ty,
};
use crate::text::{opt_view, str_eq};

verus! {

broadcast use vstd::std_specs::hash::group_hash_axioms;

/// Whether a receiver's static class is `EventTarget`.
pub open spec fn is_event_target_spec(receiver_class: Option<Seq<char>>) -> bool {
    receiver_class == Some("EventTarget"@)
}

/// Whether a receiver's static class is `EventTarget`.
pub fn is_event_target_expr(receiver_class: Option<&str>) -> (res: bool)
    ensures
        res == is_event_target_spec(opt_view(receiver_class)),
{
    match receiver_class {
        Some(c) => str_eq(c, "EventTarget"),
        None => false,
    }
}

/// The value of the `i`-th lowered argument, `undefined` when absent.
pub open spec fn arg_or_undefined(vals: Seq<OperandV>, i: int) -> OperandV {
    if 0 <= i < vals.len() {
        vals[i]
    } else {
        OperandV::Tag(JsTag::Undefined)
    }
}

/// The lowered `i`-th argument, `undefined` when absent.
fn arg_or_undefined_exec(vals: &Vec<Operand>, i: usize) -> (res: Operand)
    ensures
        res@ == arg_or_undefined(operands_view(vals@), i as int),
{
    if i < vals.len() {
        copy_operand(&vals[i])
    } else {
        Operand::Tag(JsTag::Undefined)
    }
}

/// What an `EventTarget` method call lowers to, from register `r`:
/// `(instructions, result, next register)`, or `None` when the call is not
/// one this lowering handles. `target` is the lowered receiver.
pub open spec fn event_target_result(
    receiver_class: Option<Seq<char>>,
    property: Seq<char>,
    target: OperandV,
    vals: Seq<OperandV>,
    r: int,
) -> Option<(Seq<InstV>, OperandV, int)> {
    if !is_event_target_spec(receiver_class) {
        None
    } else if (property == "addEventListener"@ || property == "removeEventListener"@) && vals.len() >= 2 {
        let runtime = if property == "addEventListener"@ {
            "js_event_target_add_event_listener_with_options"@
        } else {
            "js_event_target_remove_event_listener_with_options"@
        };
        Some(
            (
                seq![
                    InstV::UnboxToI64 { dest: r as u64, val: target },
                    InstV::Call {
                        dest: Some((r + 1) as u64),
                        ret: Ty::I64,
                        callee: "js_get_string_pointer_unified"@,
                        args: seq![(Ty::Double, vals[0])],
                    },
                    InstV::UnboxToI64 { dest: (r + 2) as u64, val: vals[1] },
                    InstV::Call {
                        dest: None,
                        ret: Ty::Void,
                        callee: runtime,
                        args: seq![
                            (Ty::I64, OperandV::Reg(r as u64)),
                            (Ty::I64, OperandV::Reg((r + 1) as u64)),
                            (Ty::I64, OperandV::Reg((r + 2) as u64)),
                            (Ty::Double, arg_or_undefined(vals, 2)),
                        ],
                    },
                ],
                OperandV::Tag(JsTag::Undefined),
                r + 3,
            ),
        )
    } else if property == "dispatchEvent"@ {
        Some(
            (
                seq![
                    InstV::UnboxToI64 { dest: r as u64, val: target },
                    InstV::Call {
                        dest: Some((r + 1) as u64),
                        ret: Ty::Double,
                        callee: "js_event_target_dispatch_event"@,
                        args: seq![(Ty::I64, OperandV::Reg(r as u64)), (Ty::Double, arg_or_undefined(vals, 0))],
                    },
                ],
                OperandV::Reg((r + 1) as u64),
                r + 2,
            ),
        )
    } else {
        None
    }
}

/// Lowers `target.addEventListener(type, listener, options?)`,
/// `removeEventListener` (both with at least two arguments) and
/// `dispatchEvent(event?)` on a receiver whose static class is
/// `EventTarget`. `target_box` is the lowered receiver and `lowered_args`
/// the lowered arguments. `None`, with nothing emitted, for any other call.
pub fn lower_event_target_call(
    b: &mut FnBuilder,
    receiver_class: Option<&str>,
    property: &str,
    target_box: Operand,
    lowered_args: &Vec<Operand>,
) -> (res: Option<Operand>)
    requires
        old(b)@.wf(),
        old(b)@.next_reg + 3 <= u64::MAX,
    ensures
        match event_target_result(
            opt_view(receiver_class),
            property@,
            target_box@,
            operands_view(lowered_args@),
            old(b)@.next_reg,
        ) {
            None => res is None && final(b)@ == old(b)@,
            Some((insts, result, next)) => res matches Some(o) && o@ == result && final(b)@ == (FnBuilderV {
                next_reg: next,
                ..old(b)@
            }).append_cur(insts),
        },
        final(b)@.wf(),
{
    let ghost pre = b@;
    let ghost vv = operands_view(lowered_args@);
    if !is_event_target_expr(receiver_class) {
        return None;
    }
    let is_add = str_eq(property, "addEventListener");
    if (is_add || str_eq(property, "removeEventListener")) && lowered_args.len() >= 2 {
        let ghost want = event_target_result(opt_view(receiver_class), property@, target_box@, vv, pre.next_reg).unwrap().0;
        let ghost s = FnBuilderV { next_reg: pre.next_reg + 3, ..pre };
        let target = b.fresh_reg();
        b.push(Inst::UnboxToI64 { dest: target, val: target_box });
        let a = vec![(Ty::Double, copy_operand(&lowered_args[0]))];
        assert(args_view(a@) =~= seq![(Ty::Double, vv[0])]);
        let event = b.call(Ty::I64, "js_get_string_pointer_unified", a);
        let listener = b.fresh_reg();
        b.push(Inst::UnboxToI64 { dest: listener, val: copy_operand(&lowered_args[1]) });
        let options = arg_or_undefined_exec(lowered_args, 2);
        let runtime = if is_add {
            "js_event_target_add_event_listener_with_options"
        } else {
            "js_event_target_remove_event_listener_with_options"
        };
        let ghost ov = options@;
        let call_args = vec![
            (Ty::I64, Operand::Reg(target)),
            (Ty::I64, Operand::Reg(event)),
            (Ty::I64, Operand::Reg(listener)),
            (Ty::Double, options),
        ];
        assert(args_view(call_args@) =~= want[3]->Call_args);
        b.call_void(runtime, call_args);
        proof {
            lemma_append_cur_twice(s, seq![want[0]], seq![want[1]]);
            lemma_append_cur_twice(s, seq![want[0]] + seq![want[1]], seq![want[2]]);
            lemma_append_cur_twice(s, seq![want[0]] + seq![want[1]] + seq![want[2]], seq![want[3]]);
            assert(seq![want[0]] + seq![want[1]] + seq![want[2]] + seq![want[3]] =~= want);
        }
        return Some(Operand::Tag(JsTag::Undefined));
    }
    if str_eq(property, "dispatchEvent") {
        let ghost want = event_target_result(opt_view(receiver_class), property@, target_box@, vv, pre.next_reg).unwrap().0;
        let ghost s = FnBuilderV { next_reg: pre.next_reg + 2, ..pre };
        let target = b.fresh_reg();
        b.push(Inst::UnboxToI64 { dest: target, val: target_box });
        let event = arg_or_undefined_exec(lowered_args, 0);
        let ghost ev = event@;
        let a = vec![(Ty::I64, Operand::Reg(target)), (Ty::Double, event)];
        assert(args_view(a@) =~= want[1]->Call_args);
        let r = b.call(Ty::Double, "js_event_target_dispatch_event", a);
        proof {
            lemma_append_cur_twice(s, seq![want[0]], seq![want[1]]);
            assert(seq![want[0]] + seq![want[1]] =~= want);
        }
        return Some(Operand::Reg(r));
    }
    None
}

/// Whether `e` is statically an `AbortController`: a `new AbortController()`
/// or a local whose declared type is the class `AbortController`.
/// `named_local_types` maps each local whose type is a named class type to
/// that class's name.
pub open spec fn is_abort_controller_spec(e: Expr, named_local_types: Map<LocalId, String>) -> bool {
    match e {
        Expr::New { class_name, .. } => class_name@ == "AbortController"@,
        Expr::LocalGet(id) => named_local_types.contains_key(id) && named_local_types[id]@ == "AbortController"@,
        _ => false,
    }
}

/// Whether `e` is statically an `AbortController`.
pub fn is_abort_controller_expr(e: &Expr, named_local_types: &HashMap<LocalId, String>) -> (res: bool)
    ensures
        res == is_abort_controller_spec(*e, named_local_types@),
{
    match e {
        Expr::New { class_name, .. } => str_eq(class_name.as_str(), "AbortController"),
        Expr::LocalGet(id) => match named_local_types.get(id) {
            Some(n) => str_eq(n.as_str(), "AbortController"),
            None => false,
        },
        _ => false,
    }
}

/// Which `AbortController` call a call site is.
#[derive(Copy, Clone, Debug, PartialEq, Eq, Structural)]
pub enum AbortCall {
    /// `controller.abort()` or `controller.abort(reason)`: the controller
    /// is the receiver itself.
    Abort,
    /// `controller.signal.addEventListener(type, listener)`: the controller
    /// is the object whose `signal` is read.
    SignalAddListener,
}

/// Which `AbortController` call `object.property(args)` is, if any.
pub open spec fn abort_controller_call_spec(
    object: Expr,
    property: Seq<char>,
    nargs: nat,
    named_local_types: Map<LocalId, String>,
) -> Option<AbortCall> {
    if property == "abort"@ && is_abort_controller_spec(object, named_local_types) {
        Some(AbortCall::Abort)
    } else if property == "addEventListener"@ && nargs >= 2 && match object {
        Expr::PropertyGet { object: inner, property: p } => p@ == "signal"@ && is_abort_controller_spec(
            *inner,
            named_local_types,
        ),
        _ => false,
    } {
        Some(AbortCall::SignalAddListener)
    } else {
        None
    }
}

/// Which `AbortController` call `object.property(args)` is, if any; the
/// caller lowers the controller expression the answer names.
pub fn abort_controller_call(
    object: &Expr,
    property: &str,
    nargs: usize,
    named_local_types: &HashMap<LocalId, String>,
) -> (res: Option<AbortCall>)
    ensures
        res == abort_controller_call_spec(*object, property@, nargs as nat, named_local_types@),
{
    if str_eq(property, "abort") && is_abort_controller_expr(object, named_local_types) {
        return Some(AbortCall::Abort);
    }
    if str_eq(property, "addEventListener") && nargs >= 2 {
        if let Expr::PropertyGet { object: inner, property: p } = object {
            if str_eq(p.as_str(), "signal") && is_abort_controller_expr(inner, named_local_types) {
                return Some(AbortCall::SignalAddListener);
            }
        }
    }
    None
}

/// What an `AbortController` call lowers to, from register `r`.
pub open spec fn abort_controller_result(call: AbortCall, ctrl: OperandV, vals: Seq<OperandV>, r: int) -> (
    Seq<InstV>,
    int,
) {
    match call {
        AbortCall::Abort => (
            seq![
                InstV::UnboxToI64 { dest: r as u64, val: ctrl },
                if vals.len() == 0 {
                    InstV::Call {
                        dest: None,
                        ret: Ty::Void,
                        callee: "js_abort_controller_abort"@,
                        args: seq![(Ty::I64, OperandV::Reg(r as u64))],
                    }
                } else {
                    InstV::Call {
                        dest: None,
                        ret: Ty::Void,
                        callee: "js_abort_controller_abort_reason"@,
                        args: seq![(Ty::I64, OperandV::Reg(r as u64)), (Ty::Double, vals[0])],
                    }
                },
            ],
            r + 1,
        ),
        AbortCall::SignalAddListener => (
            seq![
                InstV::UnboxToI64 { dest: r as u64, val: ctrl },
                InstV::Call {
                    dest: Some((r + 1) as u64),
                    ret: Ty::I64,
                    callee: "js_abort_controller_signal"@,
                    args: seq![(Ty::I64, OperandV::Reg(r as u64))],
                },
                InstV::Call {
                    dest: None,
                    ret: Ty::Void,
                    callee: "js_abort_signal_add_listener"@,
                    args: seq![
                        (Ty::I64, OperandV::Reg((r + 1) as u64)),
                        (Ty::Double, vals[0]),
                        (Ty::Double, vals[1]),
                    ],
                },
            ],
            r + 2,
        ),
    }
}

/// Lowers an `AbortController` call: `ctrl_box` is the lowered controller
/// (the receiver for `abort`, the object whose `signal` is read for
/// `addEventListener`) and `lowered_args` the lowered arguments. The call
/// yields `undefined`.
pub fn lower_abort_controller_call(b: &mut FnBuilder, call: AbortCall, ctrl_box: Operand, lowered_args: &Vec<Operand>)
    -> (res: Operand)
    requires
        old(b)@.wf(),
        old(b)@.next_reg + 2 <= u64::MAX,
        call == AbortCall::SignalAddListener ==> lowered_args@.len() >= 2,
    ensures
        ({
            let (insts, next) = abort_controller_result(call, ctrl_box@, operands_view(lowered_args@), old(b)@.next_reg);
            final(b)@ == (FnBuilderV { next_reg: next, ..old(b)@ }).append_cur(insts)
        }),
        res@ == OperandV::Tag(JsTag::Undefined),
        final(b)@.wf(),
{
    let ghost pre = b@;
    let ghost vv = operands_view(lowered_args@);
    let ghost (want, next) = abort_controller_result(call, ctrl_box@, vv, pre.next_reg);
    let ghost s = FnBuilderV { next_reg: next, ..pre };
    let ctrl = b.fresh_reg();
    b.push(Inst::UnboxToI64 { dest: ctrl, val: ctrl_box });
    match call {
        AbortCall::Abort => {
            if lowered_args.len() == 0 {
                let a = vec![(Ty::I64, Operand::Reg(ctrl))];
                assert(args_view(a@) =~= want[1]->Call_args);
                b.call_void("js_abort_controller_abort", a);
            } else {
                let a = vec![(Ty::I64, Operand::Reg(ctrl)), (Ty::Double, copy_operand(&lowered_args[0]))];
                assert(args_view(a@) =~= want[1]->Call_args);
                b.call_void("js_abort_controller_abort_reason", a);
            }
            proof {
                lemma_append_cur_twice(s, seq![want[0]], seq![want[1]]);
                assert(seq![want[0]] + seq![want[1]] =~= want);
            }
        },
        AbortCall::SignalAddListener => {
            let a = vec![(Ty::I64, Operand::Reg(ctrl))];
            assert(args_view(a@) =~= want[1]->Call_args);
            let signal = b.call(Ty::I64, "js_abort_controller_signal", a);
            let c = vec![
                (Ty::I64, Operand::Reg(signal)),
                (Ty::Double, copy_operand(&lowered_args[0])),
                (Ty::Double, copy_operand(&lowered_args[1])),
            ];
            assert(args_view(c@) =~= want[2]->Call_args);
            b.call_void("js_abort_signal_add_listener", c);
            proof {
                lemma_append_cur_twice(s, seq![want[0]], seq![want[1]]);
                lemma_append_cur_twice(s, seq![want[0]] + seq![want[1]], seq![want[2]]);
                assert(seq![want[0]] + seq![want[1]] + seq![want[2]] =~= want);
            }
        },
    }
    Operand::Tag(JsTag::Undefined)
}

} // verus!
