//! Computed-key method calls, `obj[key](args)`: through the string-key
//! method dispatch when the key is statically a string, through the
//! value-key dispatch otherwise, and `server[Symbol.asyncDispose]()` as a
//! close of the server.

use vstd::prelude::*;

use crate::hir::Expr;
use crate::ir::{insts_view, lemma_append_cur_twice, operands_view, FnBuilder, FnBuilderV, Inst, InstV, JsTag, Operand, OperandV, Ty};
use crate::marshal::{args_buffer_result, emit_args_buffer};
use crate::text::str_eq;

verus! {

/// The registry key of the well-known symbol `Symbol.asyncDispose`.
pub open spec fn async_dispose_key() -> Seq<char> {
    "@@__perry_wk_asyncDispose"@
}

/// Whether `index` is `Symbol.for` of the well-known `asyncDispose` key,
/// as a string literal or as WTF-8 bytes.
pub open spec fn is_async_dispose_symbol_spec(index: Expr) -> bool {
    match index {
        Expr::SymbolFor(name) => match *name {
            Expr::Str(s) => s@ == async_dispose_key(),
            Expr::WtfString(bytes) => bytes@ == async_dispose_key().map_values(|c: char| c as u8),
            _ => false,
        },
        _ => false,
    }
}

/// The WTF-8 bytes of the `asyncDispose` key.
fn async_dispose_key_bytes() -> (res: Vec<u8>)
    ensures
        res@ == async_dispose_key().map_values(|c: char| c as u8),
{
    let key = "@@__perry_wk_asyncDispose";
    proof {
        reveal_strlit("@@__perry_wk_asyncDispose");
    }
    let bytes = vec![
        64u8, 64u8, 95u8, 95u8, 112u8, 101u8, 114u8, 114u8, 121u8, 95u8, 119u8, 107u8, 95u8, 97u8, 115u8, 121u8,
        110u8, 99u8, 68u8, 105u8, 115u8, 112u8, 111u8, 115u8, 101u8,
    ];
    assert(bytes@ =~= key@.map_values(|c: char| c as u8));
    bytes
}

/// Whether two byte strings are equal.
fn bytes_eq(a: &Vec<u8>, b: &Vec<u8>) -> (res: bool)
    ensures
        res == (a@ == b@),
{
    if a.len() != b.len() {
        return false;
    }
    let mut i: usize = 0;
    while i < b.len()
        invariant
            i <= b@.len(),
            a@.len() == b@.len(),
            forall|j: int| 0 <= j < i ==> a@[j] == b@[j],
        decreases b@.len() - i,
    {
        if a[i] != b[i] {
            assert(a@[i as int] != b@[i as int]);
            return false;
        }
        i = i + 1;
    }
    assert(a@ =~= b@);
    true
}

/// Whether `index` is `Symbol.for` of the well-known `asyncDispose` key.
pub fn is_async_dispose_symbol_index(index: &Expr) -> (res: bool)
    ensures
        res == is_async_dispose_symbol_spec(*index),
{
    match index {
        Expr::SymbolFor(name) => match &**name {
            Expr::Str(s) => str_eq(s.as_str(), "@@__perry_wk_asyncDispose"),
            Expr::WtfString(bytes) => {
                let key = async_dispose_key_bytes();
                bytes_eq(bytes, &key)
            },
            _ => false,
        },
        _ => false,
    }
}

/// What the type analysis knows of a computed-key call.
#[derive(Clone, Debug)]
pub struct IndexCallFacts {
    /// The key is a numeric expression.
    pub index_is_numeric: bool,
    /// The key is statically a string (by type or by definite analysis).
    pub index_is_string: bool,
    /// The receiver's static class, if known.
    pub receiver_class: Option<String>,
}

/// How a computed-key call is lowered.
#[derive(Copy, Clone, Debug, PartialEq, Eq, Structural)]
pub enum IndexCallPlan {
    /// `server[Symbol.asyncDispose]()`: close the server and yield a
    /// resolved promise; the key is not evaluated.
    ServerAsyncDispose,
    /// Dispatch by a statically string key.
    StrKey,
    /// Dispatch by the key's runtime value.
    ValueKey,
}

/// Whether `object` names a class: a class of this module, or an imported
/// name that is one of `class_names`.
pub open spec fn is_class_ref_spec(object: Expr, class_names: Seq<String>) -> bool {
    match object {
        Expr::ClassRef(_) => true,
        Expr::ExternFuncRef { name } => exists|i: int| 0 <= i < class_names.len() && class_names[i]@ == name@,
        _ => false,
    }
}

/// How `callee(args)` is lowered when `callee` is `object[index]`; `None`
/// when it is not such a callee, or when a numeric key indexes something
/// other than a class (an element call, lowered elsewhere).
pub open spec fn index_call_plan_spec(callee: Expr, facts: IndexCallFacts, class_names: Seq<String>) -> Option<
    IndexCallPlan,
> {
    match callee {
        Expr::IndexGet { object, index } => if facts.index_is_numeric && !is_class_ref_spec(*object, class_names) {
            None
        } else if (match facts.receiver_class {
            Some(c) => c@ == "Server"@,
            None => false,
        }) && is_async_dispose_symbol_spec(*index) {
            Some(IndexCallPlan::ServerAsyncDispose)
        } else if (*index is Str) || facts.index_is_string {
            Some(IndexCallPlan::StrKey)
        } else {
            Some(IndexCallPlan::ValueKey)
        },
        _ => None,
    }
}

/// Whether `name` is one of `class_names`.
fn names_a_class(name: &str, class_names: &Vec<String>) -> (res: bool)
    ensures
        res == exists|i: int| 0 <= i < class_names@.len() && class_names@[i]@ == name@,
{
    let mut i: usize = 0;
    while i < class_names.len()
        invariant
            i <= class_names@.len(),
            forall|j: int| 0 <= j < i ==> class_names@[j]@ != name@,
        decreases class_names@.len() - i,
    {
        if str_eq(class_names[i].as_str(), name) {
            return true;
        }
        i = i + 1;
    }
    false
}

/// How a computed-key call `callee(args)` is lowered, if it is one.
pub fn index_get_call_plan(callee: &Expr, facts: &IndexCallFacts, class_names: &Vec<String>) -> (res: Option<
    IndexCallPlan,
>)
    ensures
        res == index_call_plan_spec(*callee, *facts, class_names@),
{
    match callee {
        Expr::IndexGet { object, index } => {
            let object_is_class_ref = match &**object {
                Expr::ClassRef(_) => true,
                Expr::ExternFuncRef { name } => names_a_class(name.as_str(), class_names),
                _ => false,
            };
            if facts.index_is_numeric && !object_is_class_ref {
                return None;
            }
            let is_server = match &facts.receiver_class {
                Some(c) => str_eq(c.as_str(), "Server"),
                None => false,
            };
            if is_server && is_async_dispose_symbol_index(index) {
                return Some(IndexCallPlan::ServerAsyncDispose);
            }
            let is_str_literal = match &**index {
                Expr::Str(_) => true,
                _ => false,
            };
            if is_str_literal || facts.index_is_string {
                Some(IndexCallPlan::StrKey)
            } else {
                Some(IndexCallPlan::ValueKey)
            }
        },
        _ => None,
    }
}

/// The function state and result of a computed-key call lowered per
/// `plan`, from `pre`; `recv` and `key` are the lowered receiver and key.
pub open spec fn index_call_result(
    pre: FnBuilderV,
    plan: IndexCallPlan,
    recv: OperandV,
    key: OperandV,
    vals: Seq<OperandV>,
) -> (FnBuilderV, OperandV) {
    match plan {
        IndexCallPlan::ServerAsyncDispose => {
            let r = pre.next_reg;
            (
                (FnBuilderV { next_reg: r + 3, ..pre }).append_cur(
                    seq![
                        InstV::UnboxToI64 { dest: r as u64, val: recv },
                        InstV::Call {
                            dest: None,
                            ret: Ty::Void,
                            callee: "js_net_server_close"@,
                            args: seq![(Ty::I64, OperandV::Reg(r as u64)), (Ty::I64, OperandV::Int(0))],
                        },
                        InstV::Call {
                            dest: Some((r + 1) as u64),
                            ret: Ty::I64,
                            callee: "js_promise_resolved"@,
                            args: seq![(Ty::Double, OperandV::Tag(JsTag::Undefined))],
                        },
                        InstV::NanboxPointer { dest: (r + 2) as u64, val: OperandV::Reg((r + 1) as u64) },
                    ],
                ),
                OperandV::Reg((r + 2) as u64),
            )
        },
        _ => {
            let (buffered, ptr) = args_buffer_result(pre, vals);
            let r = buffered.next_reg;
            let len = OperandV::Int(vals.len() as u64);
            if plan == IndexCallPlan::StrKey {
                (
                    (FnBuilderV { next_reg: r + 2, ..buffered }).append_cur(
                        seq![
                            InstV::UnboxStrHandle { dest: r as u64, val: key },
                            InstV::Call {
                                dest: Some((r + 1) as u64),
                                ret: Ty::Double,
                                callee: "js_native_call_method_str_key"@,
                                args: seq![
                                    (Ty::Double, recv),
                                    (Ty::I64, OperandV::Reg(r as u64)),
                                    (Ty::Ptr, ptr),
                                    (Ty::I64, len),
                                ],
                            },
                        ],
                    ),
                    OperandV::Reg((r + 1) as u64),
                )
            } else {
                (
                    (FnBuilderV { next_reg: r + 1, ..buffered }).append_cur(
                        seq![
                            InstV::Call {
                                dest: Some(r as u64),
                                ret: Ty::Double,
                                callee: "js_native_call_method_value"@,
                                args: seq![(Ty::Double, recv), (Ty::Double, key), (Ty::Ptr, ptr), (Ty::I64, len)],
                            },
                        ],
                    ),
                    OperandV::Reg(r as u64),
                )
            }
        },
    }
}

/// Lowers a computed-key call `object[index](args)` per its plan (see
/// `index_get_call_plan`): `recv_box` is the lowered receiver, `key_box` the
/// lowered key (unused for the server dispose form) and `lowered_args` the
/// lowered arguments, which the dispatch forms pass in an entry-block
/// buffer with their count. `None`, with nothing emitted, when the callee is
/// not such a call.
pub fn try_lower_index_get_call(
    b: &mut FnBuilder,
    callee: &Expr,
    facts: &IndexCallFacts,
    class_names: &Vec<String>,
    recv_box: Operand,
    key_box: Operand,
    lowered_args: &Vec<Operand>,
) -> (res: Option<Operand>)
    requires
        old(b)@.wf(),
        old(b)@.next_reg + lowered_args@.len() + 5 <= u64::MAX,
    ensures
        match index_call_plan_spec(*callee, *facts, class_names@) {
            None => res is None && final(b)@ == old(b)@,
            Some(plan) => {
                let (post, result) = index_call_result(
                    old(b)@,
                    plan,
                    recv_box@,
                    key_box@,
                    operands_view(lowered_args@),
                );
                res matches Some(o) && o@ == result && final(b)@ == post
            },
        },
        final(b)@.wf(),
{
    let plan = match index_get_call_plan(callee, facts, class_names) {
        Some(p) => p,
        None => return None,
    };
    let ghost pre = b@;
    let ghost rv = recv_box@;
    let ghost kv = key_box@;
    let ghost vv = operands_view(lowered_args@);
    let ghost (post, result) = index_call_result(pre, plan, rv, kv, vv);
    match plan {
        IndexCallPlan::ServerAsyncDispose => {
            let r = b.reserve_regs(3);
            let close_args = vec![(Ty::I64, Operand::Reg(r)), (Ty::I64, Operand::Int(0))];
            let resolve_args = vec![(Ty::Double, Operand::Tag(JsTag::Undefined))];
            assert(crate::ir::args_view(close_args@) =~= seq![(Ty::I64, OperandV::Reg(r)), (Ty::I64, OperandV::Int(0))]);
            assert(crate::ir::args_view(resolve_args@) =~= seq![(Ty::Double, OperandV::Tag(JsTag::Undefined))]);
            let insts = vec![
                Inst::UnboxToI64 { dest: r, val: recv_box },
                Inst::Call { dest: None, ret: Ty::Void, callee: String::from_str("js_net_server_close"), args: close_args },
                Inst::Call {
                    dest: Some(r + 1),
                    ret: Ty::I64,
                    callee: String::from_str("js_promise_resolved"),
                    args: resolve_args,
                },
                Inst::NanboxPointer { dest: r + 2, val: Operand::Reg(r + 1) },
            ];
            assert(insts_view(insts@) =~= seq![
                InstV::UnboxToI64 { dest: r, val: rv },
                InstV::Call {
                    dest: None,
                    ret: Ty::Void,
                    callee: "js_net_server_close"@,
                    args: seq![(Ty::I64, OperandV::Reg(r)), (Ty::I64, OperandV::Int(0))],
                },
                InstV::Call {
                    dest: Some((r + 1) as u64),
                    ret: Ty::I64,
                    callee: "js_promise_resolved"@,
                    args: seq![(Ty::Double, OperandV::Tag(JsTag::Undefined))],
                },
                InstV::NanboxPointer { dest: (r + 2) as u64, val: OperandV::Reg((r + 1) as u64) },
            ]);
            b.push_all(insts);
            Some(Operand::Reg(r + 2))
        },
        _ => {
            let args_ptr = emit_args_buffer(b, lowered_args);
            let ghost buffered = b@;
            let len = Operand::Int(lowered_args.len() as u64);
            if plan == IndexCallPlan::StrKey {
                let r = b.reserve_regs(2);
                let call_args = vec![(Ty::Double, recv_box), (Ty::I64, Operand::Reg(r)), (Ty::Ptr, args_ptr), (Ty::I64, len)];
                let ghost want_args = seq![
                    (Ty::Double, rv),
                    (Ty::I64, OperandV::Reg(r)),
                    (Ty::Ptr, args_buffer_result(pre, vv).1),
                    (Ty::I64, OperandV::Int(vv.len() as u64)),
                ];
                assert(crate::ir::args_view(call_args@) =~= want_args);
                let insts = vec![
                    Inst::UnboxStrHandle { dest: r, val: key_box },
                    Inst::Call {
                        dest: Some(r + 1),
                        ret: Ty::Double,
                        callee: String::from_str("js_native_call_method_str_key"),
                        args: call_args,
                    },
                ];
                assert(insts_view(insts@) =~= seq![
                    InstV::UnboxStrHandle { dest: r, val: kv },
                    InstV::Call {
                        dest: Some((r + 1) as u64),
                        ret: Ty::Double,
                        callee: "js_native_call_method_str_key"@,
                        args: want_args,
                    },
                ]);
                b.push_all(insts);
                Some(Operand::Reg(r + 1))
            } else {
                let r = b.reserve_regs(1);
                let call_args = vec![(Ty::Double, recv_box), (Ty::Double, key_box), (Ty::Ptr, args_ptr), (Ty::I64, len)];
                let ghost want_args = seq![
                    (Ty::Double, rv),
                    (Ty::Double, kv),
                    (Ty::Ptr, args_buffer_result(pre, vv).1),
                    (Ty::I64, OperandV::Int(vv.len() as u64)),
                ];
                assert(crate::ir::args_view(call_args@) =~= want_args);
                let insts = vec![
                    Inst::Call {
                        dest: Some(r),
                        ret: Ty::Double,
                        callee: String::from_str("js_native_call_method_value"),
                        args: call_args,
                    },
                ];
                assert(insts_view(insts@) =~= seq![
                    InstV::Call { dest: Some(r), ret: Ty::Double, callee: "js_native_call_method_value"@, args: want_args },
                ]);
                b.push_all(insts);
                Some(Operand::Reg(r))
            }
        },
    }
}

} // verus!
