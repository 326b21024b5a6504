//! `Promise.<static>(...)` and `Array.fromAsync(...)` calls.

use vstd::prelude::*;

use crate::hir::Expr;
use crate::ir::{args_view, insts_view, operands_view, FnBuilder, FnBuilderV, Inst, InstV, JsTag, Operand, OperandV, Ty};
use crate::marshal::{array_insts, emit_js_array};
use crate::text::{opt_view, str_eq};
use crate::web_events::arg_or_undefined;

verus! {

/// A `Promise` static method this lowering handles.
#[derive(Copy, Clone, Debug, PartialEq, Eq, Structural)]
pub enum PromiseStatic {
    Resolve,
    Reject,
    /// `all`, `race`, `allSettled` or `any`, over any iterable.
    Combinator,
    WithResolvers,
    Try,
}

/// The `Promise` static method `p` names, if handled.
pub open spec fn promise_static_spec(p: Seq<char>) -> Option<PromiseStatic> {
    if p == "resolve"@ {
        Some(PromiseStatic::Resolve)
    } else if p == "reject"@ {
        Some(PromiseStatic::Reject)
    } else if p == "all"@ || p == "race"@ || p == "allSettled"@ || p == "any"@ {
        Some(PromiseStatic::Combinator)
    } else if p == "withResolvers"@ {
        Some(PromiseStatic::WithResolvers)
    } else if p == "try"@ {
        Some(PromiseStatic::Try)
    } else {
        None
    }
}

/// The runtime entry of a combinator over an iterable.
pub open spec fn combinator_runtime(p: Seq<char>) -> Seq<char> {
    if p == "all"@ {
        "js_promise_all_iterable"@
    } else if p == "race"@ {
        "js_promise_race_iterable"@
    } else if p == "any"@ {
        "js_promise_any_iterable"@
    } else {
        "js_promise_all_settled_iterable"@
    }
}

/// The lowered first argument, or `default` when there is none.
pub open spec fn first_or(vals: Seq<OperandV>, default: OperandV) -> OperandV {
    if vals.len() > 0 {
        vals[0]
    } else {
        default
    }
}

/// A call yielding a pointer, NaN-boxed, from register `r`.
pub open spec fn boxed_ptr_call(callee: Seq<char>, args: Seq<(Ty, OperandV)>, r: int) -> Seq<InstV> {
    seq![
        InstV::Call { dest: Some(r as u64), ret: Ty::I64, callee, args },
        InstV::NanboxPointer { dest: (r + 1) as u64, val: OperandV::Reg(r as u64) },
    ]
}

/// What `callee(args)` lowers to when `callee` reads a static method off
/// the global `Promise` or `Array` constructor (`global_ctor` names which,
/// as the type analysis determined); `None` when it is not one handled
/// here. `Some((state, result))` from `pre`.
pub open spec fn promise_static_result(
    pre: FnBuilderV,
    callee: Expr,
    global_ctor: Option<Seq<char>>,
    vals: Seq<OperandV>,
) -> Option<(FnBuilderV, OperandV)> {
    let r = pre.next_reg;
    let undef = OperandV::Tag(JsTag::Undefined);
    match callee {
        Expr::PropertyGet { property, .. } => {
            let p = property@;
            if global_ctor == Some("Promise"@) && promise_static_spec(p) is Some {
                match promise_static_spec(p)->0 {
                    PromiseStatic::Resolve => Some(
                        (
                            (FnBuilderV { next_reg: r + 2, ..pre }).append_cur(
                                boxed_ptr_call("js_promise_resolved"@, seq![(Ty::Double, first_or(vals, OperandV::Zero))], r),
                            ),
                            OperandV::Reg((r + 1) as u64),
                        ),
                    ),
                    PromiseStatic::Reject => Some(
                        (
                            (FnBuilderV { next_reg: r + 2, ..pre }).append_cur(
                                boxed_ptr_call("js_promise_rejected"@, seq![(Ty::Double, first_or(vals, OperandV::Zero))], r),
                            ),
                            OperandV::Reg((r + 1) as u64),
                        ),
                    ),
                    PromiseStatic::Combinator => Some(
                        (
                            (FnBuilderV { next_reg: r + 2, ..pre }).append_cur(
                                boxed_ptr_call(combinator_runtime(p), seq![(Ty::Double, first_or(vals, undef))], r),
                            ),
                            OperandV::Reg((r + 1) as u64),
                        ),
                    ),
                    PromiseStatic::WithResolvers => Some(
                        (
                            (FnBuilderV { next_reg: r + 2, ..pre }).append_cur(
                                boxed_ptr_call("js_promise_with_resolvers"@, seq![], r),
                            ),
                            OperandV::Reg((r + 1) as u64),
                        ),
                    ),
                    PromiseStatic::Try => {
                        let rest = if vals.len() > 0 {
                            vals.skip(1)
                        } else {
                            vals
                        };
                        let q = r + rest.len() + 1;
                        Some(
                            (
                                (FnBuilderV { next_reg: q + 2, ..pre }).append_cur(
                                    array_insts(rest, r) + boxed_ptr_call(
                                        "js_promise_try"@,
                                        seq![
                                            (Ty::Double, first_or(vals, undef)),
                                            (Ty::I64, OperandV::Reg((r + rest.len()) as u64)),
                                        ],
                                        q,
                                    ),
                                ),
                                OperandV::Reg((q + 1) as u64),
                            ),
                        )
                    },
                }
            } else if global_ctor == Some("Array"@) && p == "fromAsync"@ {
                if vals.len() == 0 {
                    Some((pre, undef))
                } else {
                    Some(
                        (
                            (FnBuilderV { next_reg: r + 1, ..pre }).append_cur(
                                seq![
                                    InstV::Call {
                                        dest: Some(r as u64),
                                        ret: Ty::Double,
                                        callee: "js_array_from_async"@,
                                        args: seq![(Ty::Double, vals[0])],
                                    },
                                ],
                            ),
                            OperandV::Reg(r as u64),
                        ),
                    )
                }
            } else {
                None
            }
        },
        _ => None,
    }
}

/// The `Promise` static method `p` names, if handled.
pub fn promise_static_method(p: &str) -> (res: Option<PromiseStatic>)
    ensures
        res == promise_static_spec(p@),
{
    if str_eq(p, "resolve") {
        Some(PromiseStatic::Resolve)
    } else if str_eq(p, "reject") {
        Some(PromiseStatic::Reject)
    } else if str_eq(p, "all") || str_eq(p, "race") || str_eq(p, "allSettled") || str_eq(p, "any") {
        Some(PromiseStatic::Combinator)
    } else if str_eq(p, "withResolvers") {
        Some(PromiseStatic::WithResolvers)
    } else if str_eq(p, "try") {
        Some(PromiseStatic::Try)
    } else {
        None
    }
}

fn combinator_runtime_exec(p: &str) -> (res: &'static str)
    ensures
        res@ == combinator_runtime(p@),
{
    if str_eq(p, "all") {
        "js_promise_all_iterable"
    } else if str_eq(p, "race") {
        "js_promise_race_iterable"
    } else if str_eq(p, "any") {
        "js_promise_any_iterable"
    } else {
        "js_promise_all_settled_iterable"
    }
}

/// Emits a pointer-returning call and its NaN-boxing; returns the boxed
/// register.
fn emit_boxed_ptr_call(b: &mut FnBuilder, callee: &str, args: Vec<crate::ir::Arg>) -> (res: u64)
    requires
        old(b)@.wf(),
        old(b)@.next_reg + 2 <= u64::MAX,
    ensures
        res == old(b)@.next_reg + 1,
        final(b)@ == (FnBuilderV { next_reg: old(b)@.next_reg + 2, ..old(b)@ }).append_cur(
            boxed_ptr_call(callee@, args_view(args@), old(b)@.next_reg),
        ),
        final(b)@.wf(),
{
    let ghost av = args_view(args@);
    let r = b.reserve_regs(2);
    let insts = vec![
        Inst::Call { dest: Some(r), ret: Ty::I64, callee: String::from_str(callee), args },
        Inst::NanboxPointer { dest: r + 1, val: Operand::Reg(r) },
    ];
    assert(insts_view(insts@) =~= boxed_ptr_call(callee@, av, r as int));
    b.push_all(insts);
    r + 1
}

/// The lowered first argument, or `default`.
fn first_or_exec(vals: &Vec<Operand>, default: Operand) -> (res: Operand)
    ensures
        res@ == first_or(operands_view(vals@), default@),
{
    if vals.len() > 0 {
        crate::ir::copy_operand(&vals[0])
    } else {
        default
    }
}

/// Lowers `Promise.resolve(v)` / `reject(r)` (a missing argument as
/// `0.0`), the combinators `all` / `race` / `allSettled` / `any` over the
/// first argument (`undefined` when missing, which the runtime rejects),
/// `withResolvers()`, `try(callback, ...args)` with the extra arguments in
/// an array, each yielding a NaN-boxed promise; and `Array.fromAsync(input)`
/// (`undefined` with no argument). `global_ctor` names the global
/// constructor the callee's object is, when it is one; `lowered_args` are
/// the lowered arguments. `None`, with nothing emitted, for any other call.
pub fn try_lower_promise_static_call(
    b: &mut FnBuilder,
    callee: &Expr,
    global_ctor: Option<&str>,
    lowered_args: &Vec<Operand>,
) -> (res: Option<Operand>)
    requires
        old(b)@.wf(),
        lowered_args@.len() <= u32::MAX,
        old(b)@.next_reg + lowered_args@.len() + 4 <= u64::MAX,
    ensures
        match promise_static_result(old(b)@, *callee, opt_view(global_ctor), operands_view(lowered_args@)) {
            None => res is None && final(b)@ == old(b)@,
            Some((post, result)) => res matches Some(o) && o@ == result && final(b)@ == post,
        },
        final(b)@.wf(),
{
    let ghost pre = b@;
    let ghost vv = operands_view(lowered_args@);
    let property = match callee {
        Expr::PropertyGet { property, .. } => property.as_str(),
        _ => return None,
    };
    let is_promise = match global_ctor {
        Some(c) => str_eq(c, "Promise"),
        None => false,
    };
    let is_array = match global_ctor {
        Some(c) => str_eq(c, "Array"),
        None => false,
    };
    if is_promise {
        if let Some(kind) = promise_static_method(property) {
            let r = match kind {
                PromiseStatic::Resolve => {
                    let a = vec![(Ty::Double, first_or_exec(lowered_args, Operand::Zero))];
                    assert(args_view(a@) =~= seq![(Ty::Double, first_or(vv, OperandV::Zero))]);
                    emit_boxed_ptr_call(b, "js_promise_resolved", a)
                },
                PromiseStatic::Reject => {
                    let a = vec![(Ty::Double, first_or_exec(lowered_args, Operand::Zero))];
                    assert(args_view(a@) =~= seq![(Ty::Double, first_or(vv, OperandV::Zero))]);
                    emit_boxed_ptr_call(b, "js_promise_rejected", a)
                },
                PromiseStatic::Combinator => {
                    let a = vec![(Ty::Double, first_or_exec(lowered_args, Operand::Tag(JsTag::Undefined)))];
                    assert(args_view(a@) =~= seq![(Ty::Double, first_or(vv, OperandV::Tag(JsTag::Undefined)))]);
                    emit_boxed_ptr_call(b, combinator_runtime_exec(property), a)
                },
                PromiseStatic::WithResolvers => {
                    let a: Vec<crate::ir::Arg> = Vec::new();
                    assert(args_view(a@) =~= Seq::<(Ty, OperandV)>::empty());
                    emit_boxed_ptr_call(b, "js_promise_with_resolvers", a)
                },
                PromiseStatic::Try => {
                    let callback = first_or_exec(lowered_args, Operand::Tag(JsTag::Undefined));
                    let from: usize = if lowered_args.len() > 0 { 1 } else { 0 };
                    let ghost rest = vv.skip(from as int);
                    assert(from == 0 ==> rest =~= vv);
                    let arr = emit_js_array(b, lowered_args, from);
                    let ghost s1 = b@;
                    let ghost cv = callback@;
                    let a = vec![(Ty::Double, callback), (Ty::I64, Operand::Reg(arr))];
                    assert(args_view(a@) =~= seq![(Ty::Double, cv), (Ty::I64, OperandV::Reg(arr))]);
                    let boxed = emit_boxed_ptr_call(b, "js_promise_try", a);
                    proof {
                        let q = pre.next_reg + rest.len() + 1;
                        crate::ir::lemma_append_cur_twice(
                            FnBuilderV { next_reg: q + 2, ..pre },
                            array_insts(rest, pre.next_reg),
                            boxed_ptr_call("js_promise_try"@, seq![(Ty::Double, cv), (Ty::I64, OperandV::Reg(arr))], q),
                        );
                    }
                    boxed
                },
            };
            return Some(Operand::Reg(r));
        }
    }
    if is_array && str_eq(property, "fromAsync") {
        if lowered_args.len() == 0 {
            return Some(Operand::Tag(JsTag::Undefined));
        }
        let a = vec![(Ty::Double, crate::ir::copy_operand(&lowered_args[0]))];
        assert(args_view(a@) =~= seq![(Ty::Double, vv[0])]);
        let r = b.call(Ty::Double, "js_array_from_async", a);
        return Some(Operand::Reg(r));
    }
    None
}

/// How `promise.then/catch/finally(...)` is lowered.
#[derive(Copy, Clone, Debug, PartialEq, Eq, Structural)]
pub enum PromiseChain {
    /// `Promise.resolve(v).then(f, r?)`: fused, without the intermediate
    /// promise; the receiver value is `v` (`0.0` when absent).
    ResolvedThen,
    Then,
    Catch,
    Finally,
}

/// Whether `object` is `<Promise>.resolve(...)` (given that the object the
/// `resolve` is read off is the global `Promise`).
pub open spec fn is_resolve_call(object: Expr, inner_is_promise: bool) -> bool {
    match object {
        Expr::Call { callee, .. } => match *callee {
            Expr::PropertyGet { property, .. } => property@ == "resolve"@ && inner_is_promise,
            _ => false,
        },
        _ => false,
    }
}

/// How `object.property(args)` with `n` arguments chains on a promise, when
/// `object` is statically a promise (`is_promise`); `inner_is_promise` says
/// whether, for `object` of the form `X.resolve(...)`, `X` is the global
/// `Promise`.
pub open spec fn promise_chain_spec(object: Expr, p: Seq<char>, n: nat, is_promise: bool, inner_is_promise: bool) -> Option<
    PromiseChain,
> {
    if !is_promise || n == 0 {
        None
    } else if p == "then"@ {
        if is_resolve_call(object, inner_is_promise) {
            Some(PromiseChain::ResolvedThen)
        } else {
            Some(PromiseChain::Then)
        }
    } else if p == "catch"@ {
        Some(PromiseChain::Catch)
    } else if p == "finally"@ {
        Some(PromiseChain::Finally)
    } else {
        None
    }
}

/// How `object.property(args)` chains on a promise, if it does.
pub fn promise_chain_plan(object: &Expr, p: &str, n: usize, is_promise: bool, inner_is_promise: bool) -> (res: Option<
    PromiseChain,
>)
    ensures
        res == promise_chain_spec(*object, p@, n as nat, is_promise, inner_is_promise),
{
    if !is_promise || n == 0 {
        return None;
    }
    if str_eq(p, "then") {
        let fused = match object {
            Expr::Call { callee, .. } => match &**callee {
                Expr::PropertyGet { property, .. } => str_eq(property.as_str(), "resolve") && inner_is_promise,
                _ => false,
            },
            _ => false,
        };
        if fused {
            Some(PromiseChain::ResolvedThen)
        } else {
            Some(PromiseChain::Then)
        }
    } else if str_eq(p, "catch") {
        Some(PromiseChain::Catch)
    } else if str_eq(p, "finally") {
        Some(PromiseChain::Finally)
    } else {
        None
    }
}

/// The instructions of a promise chain call from register `r`, with `recv`
/// the lowered promise (for `ResolvedThen`, the resolved value) and `vals`
/// the lowered handlers: `(instructions, result register, next register)`.
/// Handlers are unboxed to closure handles; a missing rejection handler is
/// `0`.
pub open spec fn promise_chain_insts(c: PromiseChain, recv: OperandV, vals: Seq<OperandV>, r: int) -> (
    Seq<InstV>,
    int,
    int,
) {
    let two = vals.len() >= 2;
    match c {
        PromiseChain::ResolvedThen => {
            let k = if two { 1int } else { 0int };
            let q = r + 1 + k;
            (
                seq![InstV::UnboxToI64 { dest: r as u64, val: vals[0] }] + (if two {
                    seq![InstV::UnboxToI64 { dest: (r + 1) as u64, val: vals[1] }]
                } else {
                    Seq::empty()
                }) + boxed_ptr_call(
                    "js_promise_resolved_then"@,
                    seq![
                        (Ty::Double, recv),
                        (Ty::I64, OperandV::Reg(r as u64)),
                        (Ty::I64, if two { OperandV::Reg((r + 1) as u64) } else { OperandV::Int(0) }),
                    ],
                    q,
                ),
                q + 1,
                q + 2,
            )
        },
        PromiseChain::Then => {
            let k = if two { 1int } else { 0int };
            let q = r + 2 + k;
            (
                seq![
                    InstV::UnboxToI64 { dest: r as u64, val: recv },
                    InstV::UnboxToI64 { dest: (r + 1) as u64, val: vals[0] },
                ] + (if two {
                    seq![InstV::UnboxToI64 { dest: (r + 2) as u64, val: vals[1] }]
                } else {
                    Seq::empty()
                }) + boxed_ptr_call(
                    "js_promise_then"@,
                    seq![
                        (Ty::I64, OperandV::Reg(r as u64)),
                        (Ty::I64, OperandV::Reg((r + 1) as u64)),
                        (Ty::I64, if two { OperandV::Reg((r + 2) as u64) } else { OperandV::Int(0) }),
                    ],
                    q,
                ),
                q + 1,
                q + 2,
            )
        },
        PromiseChain::Catch => (
            seq![
                InstV::UnboxToI64 { dest: r as u64, val: recv },
                InstV::UnboxToI64 { dest: (r + 1) as u64, val: vals[0] },
            ] + boxed_ptr_call(
                "js_promise_then"@,
                seq![(Ty::I64, OperandV::Reg(r as u64)), (Ty::I64, OperandV::Int(0)), (Ty::I64, OperandV::Reg((r + 1) as u64))],
                r + 2,
            ),
            r + 3,
            r + 4,
        ),
        PromiseChain::Finally => (
            seq![
                InstV::UnboxToI64 { dest: r as u64, val: recv },
                InstV::UnboxToI64 { dest: (r + 1) as u64, val: vals[0] },
            ] + boxed_ptr_call(
                "js_promise_finally"@,
                seq![(Ty::I64, OperandV::Reg(r as u64)), (Ty::I64, OperandV::Reg((r + 1) as u64))],
                r + 2,
            ),
            r + 3,
            r + 4,
        ),
    }
}

/// Lowers a promise chain call per `chain` (see `promise_chain_plan`):
/// `recv` is the lowered promise, or for the fused `Promise.resolve(v).then`
/// the lowered `v` (`0.0` when `resolve` had no argument), and
/// `lowered_args` the lowered handlers. The new promise comes back
/// NaN-boxed.
#[verifier::rlimit(40)]
pub fn lower_promise_chain_call(b: &mut FnBuilder, chain: PromiseChain, recv: Operand, lowered_args: &Vec<Operand>) -> (res:
    Operand)
    requires
        old(b)@.wf(),
        old(b)@.next_reg + 5 <= u64::MAX,
        lowered_args@.len() >= 1,
    ensures
        ({
            let (insts, result, next) = promise_chain_insts(chain, recv@, operands_view(lowered_args@), old(b)@.next_reg);
            &&& final(b)@ == (FnBuilderV { next_reg: next, ..old(b)@ }).append_cur(insts)
            &&& res@ == OperandV::Reg(result as u64)
        }),
        final(b)@.wf(),
{
    let ghost rv = recv@;
    let ghost vv = operands_view(lowered_args@);
    let two = lowered_args.len() >= 2;
    let r0 = b.peek_reg();
    let ghost (want, result, next) = promise_chain_insts(chain, rv, vv, r0 as int);
    let count: u64 = match chain {
        PromiseChain::ResolvedThen => if two { 4 } else { 3 },
        PromiseChain::Then => if two { 5 } else { 4 },
        _ => 4,
    };
    let r = b.reserve_regs(count);
    let cp = |o: &Operand| -> (c: Operand)
        ensures
            c@ == o@,
        { crate::ir::copy_operand(o) };
    let res_reg: u64 = match chain {
        PromiseChain::ResolvedThen => if two { r + 3 } else { r + 2 },
        PromiseChain::Then => if two { r + 4 } else { r + 3 },
        _ => r + 3,
    };
    let insts: Vec<Inst> = match chain {
        PromiseChain::ResolvedThen => {
            let q = if two { r + 2 } else { r + 1 };
            let third = if two { Operand::Reg(r + 1) } else { Operand::Int(0) };
            let ghost tv = third@;
            let a = vec![(Ty::Double, recv), (Ty::I64, Operand::Reg(r)), (Ty::I64, third)];
            assert(args_view(a@) =~= seq![(Ty::Double, rv), (Ty::I64, OperandV::Reg(r)), (Ty::I64, tv)]);
            let call = Inst::Call { dest: Some(q), ret: Ty::I64, callee: String::from_str("js_promise_resolved_then"), args: a };
            let boxed = Inst::NanboxPointer { dest: q + 1, val: Operand::Reg(q) };
            if two {
                vec![
                    Inst::UnboxToI64 { dest: r, val: cp(&lowered_args[0]) },
                    Inst::UnboxToI64 { dest: r + 1, val: cp(&lowered_args[1]) },
                    call,
                    boxed,
                ]
            } else {
                vec![Inst::UnboxToI64 { dest: r, val: cp(&lowered_args[0]) }, call, boxed]
            }
        },
        PromiseChain::Then => {
            let q = if two { r + 3 } else { r + 2 };
            let third = if two { Operand::Reg(r + 2) } else { Operand::Int(0) };
            let ghost tv = third@;
            let a = vec![(Ty::I64, Operand::Reg(r)), (Ty::I64, Operand::Reg(r + 1)), (Ty::I64, third)];
            assert(args_view(a@) =~= seq![(Ty::I64, OperandV::Reg(r)), (Ty::I64, OperandV::Reg((r + 1) as u64)), (Ty::I64, tv)]);
            let call = Inst::Call { dest: Some(q), ret: Ty::I64, callee: String::from_str("js_promise_then"), args: a };
            let boxed = Inst::NanboxPointer { dest: q + 1, val: Operand::Reg(q) };
            if two {
                vec![
                    Inst::UnboxToI64 { dest: r, val: recv },
                    Inst::UnboxToI64 { dest: r + 1, val: cp(&lowered_args[0]) },
                    Inst::UnboxToI64 { dest: r + 2, val: cp(&lowered_args[1]) },
                    call,
                    boxed,
                ]
            } else {
                vec![
                    Inst::UnboxToI64 { dest: r, val: recv },
                    Inst::UnboxToI64 { dest: r + 1, val: cp(&lowered_args[0]) },
                    call,
                    boxed,
                ]
            }
        },
        PromiseChain::Catch => {
            let a = vec![(Ty::I64, Operand::Reg(r)), (Ty::I64, Operand::Int(0)), (Ty::I64, Operand::Reg(r + 1))];
            assert(args_view(a@) =~= seq![(Ty::I64, OperandV::Reg(r)), (Ty::I64, OperandV::Int(0)), (Ty::I64, OperandV::Reg((r + 1) as u64))]);
            vec![
                Inst::UnboxToI64 { dest: r, val: recv },
                Inst::UnboxToI64 { dest: r + 1, val: cp(&lowered_args[0]) },
                Inst::Call { dest: Some(r + 2), ret: Ty::I64, callee: String::from_str("js_promise_then"), args: a },
                Inst::NanboxPointer { dest: r + 3, val: Operand::Reg(r + 2) },
            ]
        },
        PromiseChain::Finally => {
            let a = vec![(Ty::I64, Operand::Reg(r)), (Ty::I64, Operand::Reg(r + 1))];
            assert(args_view(a@) =~= seq![(Ty::I64, OperandV::Reg(r)), (Ty::I64, OperandV::Reg((r + 1) as u64))]);
            vec![
                Inst::UnboxToI64 { dest: r, val: recv },
                Inst::UnboxToI64 { dest: r + 1, val: cp(&lowered_args[0]) },
                Inst::Call { dest: Some(r + 2), ret: Ty::I64, callee: String::from_str("js_promise_finally"), args: a },
                Inst::NanboxPointer { dest: r + 3, val: Operand::Reg(r + 2) },
            ]
        },
    };
    assert(insts_view(insts@) =~= want);
    b.push_all(insts);
    Operand::Reg(res_reg)
}


/// A combinator over an iterable calls the runtime function of its own
/// name: `Promise.<p>(iterable)` calls `js_promise_<p>_iterable`
/// (`allSettled` as `js_promise_all_settled_iterable`), so no combinator
/// is lowered as another.
pub proof fn law_combinator_runtime_is_its_name(p: Seq<char>)
    requires
        promise_static_spec(p) == Some(PromiseStatic::Combinator),
    ensures
        p != "allSettled"@ ==> combinator_runtime(p) == "js_promise_"@ + p + "_iterable"@,
        p == "allSettled"@ ==> combinator_runtime(p) == "js_promise_all_settled_iterable"@,
{
    reveal_strlit("js_promise_");
    reveal_strlit("_iterable");
    reveal_strlit("all");
    reveal_strlit("js_promise_all_iterable");
    assert("js_promise_all_iterable"@ =~= "js_promise_"@ + "all"@ + "_iterable"@);
    reveal_strlit("race");
    reveal_strlit("js_promise_race_iterable");
    assert("js_promise_race_iterable"@ =~= "js_promise_"@ + "race"@ + "_iterable"@);
    reveal_strlit("any");
    reveal_strlit("js_promise_any_iterable");
    assert("js_promise_any_iterable"@ =~= "js_promise_"@ + "any"@ + "_iterable"@);
    reveal_strlit("allSettled");
    reveal_strlit("resolve");
    reveal_strlit("reject");
}

} // verus!
