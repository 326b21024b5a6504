//! Lowering of a native stdlib module call through its dispatch-table row:
//! argument coercion per the row's argument kinds, padding of missing
//! arguments, the runtime function's declaration, and the boxing of its
//! result per the row's return kind.

use vstd::prelude::*;

use crate::ir::{
    args_view, copy_operand, lemma_append_cur_empty, lemma_append_cur_twice, operands_view, Arg, DeclareV,
    FnBuilder, FnBuilderV, Inst, InstV, JsTag, Operand, OperandV, Ty,
};
use crate::marshal::{array_insts, emit_js_array};
use crate::hir::Expr;
use crate::native_module::{native_module_lookup, native_module_lookup_spec};
use crate::native_table::{NativeArgKind, NativeModSig, NativeRetKind};

verus! {

/// The coercion kind of argument position `p`: the row's kind, or `F64` for
/// arguments past the row's declared ones.
pub open spec fn kind_at(kinds: Seq<NativeArgKind>, p: int) -> NativeArgKind {
    if 0 <= p < kinds.len() {
        kinds[p]
    } else {
        NativeArgKind::F64
    }
}

/// The instructions, typed arguments and next register of coercing the
/// user arguments from position `i` on (registers from `r`). A
/// `VarArgsAsArray` position packs every argument from there on into one
/// array and ends the list.
pub open spec fn coerce_from(kinds: Seq<NativeArgKind>, vals: Seq<OperandV>, i: int, r: int) -> (
    Seq<InstV>,
    Seq<(Ty, OperandV)>,
    int,
)
    decreases vals.len() - i,
{
    if i < 0 || i >= vals.len() {
        (Seq::empty(), Seq::empty(), r)
    } else {
        match kind_at(kinds, i) {
            NativeArgKind::VarArgsAsArray => {
                let rest = vals.skip(i);
                (array_insts(rest, r), seq![(Ty::I64, OperandV::Reg((r + rest.len()) as u64))], r + rest.len() + 1)
            },
            NativeArgKind::F64 => {
                let (ti, ta, tr) = coerce_from(kinds, vals, i + 1, r);
                (ti, seq![(Ty::Double, vals[i])] + ta, tr)
            },
            NativeArgKind::StrPtr => {
                let (ti, ta, tr) = coerce_from(kinds, vals, i + 1, r + 1);
                (
                    seq![
                        InstV::Call {
                            dest: Some(r as u64),
                            ret: Ty::I64,
                            callee: "js_get_string_pointer_unified"@,
                            args: seq![(Ty::Double, vals[i])],
                        },
                    ] + ti,
                    seq![(Ty::I64, OperandV::Reg(r as u64))] + ta,
                    tr,
                )
            },
            NativeArgKind::PtrI64 => {
                let (ti, ta, tr) = coerce_from(kinds, vals, i + 1, r + 1);
                (
                    seq![InstV::UnboxToI64 { dest: r as u64, val: vals[i] }] + ti,
                    seq![(Ty::I64, OperandV::Reg(r as u64))] + ta,
                    tr,
                )
            },
            NativeArgKind::JsvalI64 => {
                let (ti, ta, tr) = coerce_from(kinds, vals, i + 1, r + 1);
                (
                    seq![InstV::BitcastDoubleToI64 { dest: r as u64, val: vals[i] }] + ti,
                    seq![(Ty::I64, OperandV::Reg(r as u64))] + ta,
                    tr,
                )
            },
        }
    }
}

/// The padding of the declared positions from `j` on that no user argument
/// filled: `undefined` for `F64`, `0` for the pointer kinds, an empty array
/// for `VarArgsAsArray`.
pub open spec fn pad_from(kinds: Seq<NativeArgKind>, j: int, r: int) -> (Seq<InstV>, Seq<(Ty, OperandV)>, int)
    decreases kinds.len() - j,
{
    if j < 0 || j >= kinds.len() {
        (Seq::empty(), Seq::empty(), r)
    } else {
        match kinds[j] {
            NativeArgKind::F64 => {
                let (ti, ta, tr) = pad_from(kinds, j + 1, r);
                (ti, seq![(Ty::Double, OperandV::Tag(JsTag::Undefined))] + ta, tr)
            },
            NativeArgKind::VarArgsAsArray => {
                let (ti, ta, tr) = pad_from(kinds, j + 1, r + 1);
                (
                    seq![
                        InstV::Call {
                            dest: Some(r as u64),
                            ret: Ty::I64,
                            callee: "js_array_alloc"@,
                            args: seq![(Ty::I32, OperandV::Int(0))],
                        },
                    ] + ti,
                    seq![(Ty::I64, OperandV::Reg(r as u64))] + ta,
                    tr,
                )
            },
            _ => {
                let (ti, ta, tr) = pad_from(kinds, j + 1, r);
                (ti, seq![(Ty::I64, OperandV::Int(0))] + ta, tr)
            },
        }
    }
}

/// The registers used by coercion are at most two per argument.
proof fn lemma_coerce_regs(kinds: Seq<NativeArgKind>, vals: Seq<OperandV>, i: int, r: int)
    requires
        0 <= i <= vals.len(),
    ensures
        r <= coerce_from(kinds, vals, i, r).2 <= r + 2 * (vals.len() - i) + 1,
    decreases vals.len() - i,
{
    if i < vals.len() {
        lemma_coerce_regs(kinds, vals, i + 1, r);
        lemma_coerce_regs(kinds, vals, i + 1, r + 1);
    }
}

/// The registers used by padding are at most one per declared position.
proof fn lemma_pad_regs(kinds: Seq<NativeArgKind>, j: int, r: int)
    requires
        0 <= j <= kinds.len(),
    ensures
        r <= pad_from(kinds, j, r).2 <= r + (kinds.len() - j),
    decreases kinds.len() - j,
{
    if j < kinds.len() {
        lemma_pad_regs(kinds, j + 1, r);
        lemma_pad_regs(kinds, j + 1, r + 1);
    }
}

/// Emits the coercion of the user arguments `vals` per `kinds`, appending
/// the typed arguments to `out`.
fn emit_coerced_args(b: &mut FnBuilder, kinds: &[NativeArgKind], vals: &Vec<Operand>, out: &mut Vec<Arg>)
    requires
        old(b)@.wf(),
        vals@.len() <= u32::MAX,
        old(b)@.next_reg + 3 * vals@.len() + 2 <= u64::MAX,
    ensures
        ({
            let (insts, args, next) = coerce_from(kinds@, operands_view(vals@), 0, old(b)@.next_reg);
            &&& final(b)@ == (FnBuilderV { next_reg: next, ..old(b)@ }).append_cur(insts)
            &&& args_view(final(out)@) == args_view(old(out)@) + args
        }),
        final(b)@.wf(),
{
    let ghost pre = b@;
    let ghost vv = operands_view(vals@);
    let ghost out0 = args_view(out@);
    let ghost total = coerce_from(kinds@, vv, 0, pre.next_reg);
    let n = vals.len();
    proof {
        lemma_append_cur_empty(pre);
    }
    let mut i: usize = 0;
    let ghost mut acc_insts: Seq<InstV> = Seq::empty();
    let ghost mut acc_args: Seq<(Ty, OperandV)> = Seq::empty();
    while i < n
        invariant
            pre.wf(),
            pre == old(b)@,
            out0 == args_view(old(out)@),
            total == coerce_from(kinds@, vv, 0, pre.next_reg),
            n == vals@.len(),
            n <= u32::MAX,
            vv == operands_view(vals@),
            i <= n,
            pre.next_reg + 3 * vals@.len() + 2 <= u64::MAX,
            b@.next_reg <= pre.next_reg + 2 * i,
            b@ == (FnBuilderV { next_reg: b@.next_reg, ..pre }).append_cur(acc_insts),
            args_view(out@) == out0 + acc_args,
            ({
                let (ti, ta, tr) = coerce_from(kinds@, vv, i as int, b@.next_reg);
                &&& acc_insts + ti == total.0
                &&& acc_args + ta == total.1
                &&& tr == total.2
            }),
        decreases n - i,
    {
        let ghost r = b@.next_reg;
        let kind = if i < kinds.len() { kinds[i] } else { NativeArgKind::F64 };
        assert(kind == kind_at(kinds@, i as int));
        let ghost st = FnBuilderV { next_reg: r + 1, ..pre };
        match kind {
            NativeArgKind::VarArgsAsArray => {
                // Pack vals[i..] into one array; no further positions.
                let arr = emit_js_array(b, vals, i);
                let ghost rest = vv.skip(i as int);
                proof {
                    assert(operands_view(vals@).skip(i as int) == rest);
                    lemma_append_cur_twice(
                        FnBuilderV { next_reg: r + rest.len() + 1, ..pre },
                        acc_insts,
                        array_insts(rest, r),
                    );
                }
                let ghost prev = out@;
                out.push((Ty::I64, Operand::Reg(arr)));
                proof {
                    assert(args_view(out@) =~= args_view(prev).push((Ty::I64, OperandV::Reg(arr))));
                    assert(coerce_from(kinds@, vv, i as int, r).0 == array_insts(rest, r));
                    assert(acc_insts + array_insts(rest, r) == total.0);
                    assert(r + rest.len() + 1 == total.2);
                    assert(acc_args + seq![(Ty::I64, OperandV::Reg(arr))] == total.1);
                    assert(args_view(out@) =~= out0 + total.1);
                    assert(b@ == (FnBuilderV { next_reg: total.2, ..pre }).append_cur(total.0));
                }
                return;
            },
            NativeArgKind::F64 => {
                let v = copy_operand(&vals[i]);
                let ghost prev = out@;
                out.push((Ty::Double, v));
                proof {
                    assert(args_view(out@) =~= args_view(prev).push((Ty::Double, vv[i as int])));
                    let (ti, ta, tr) = coerce_from(kinds@, vv, i + 1, r);
                    assert(acc_args + (seq![(Ty::Double, vv[i as int])] + ta) =~= acc_args.push((Ty::Double, vv[i as int])) + ta);
                    acc_args = acc_args.push((Ty::Double, vv[i as int]));
                }
            },
            NativeArgKind::StrPtr => {
                let v = copy_operand(&vals[i]);
                let a = vec![(Ty::Double, v)];
                assert(args_view(a@) =~= seq![(Ty::Double, vv[i as int])]);
                let p = b.call(Ty::I64, "js_get_string_pointer_unified", a);
                let ghost prev = out@;
                out.push((Ty::I64, Operand::Reg(p)));
                proof {
                    let c = InstV::Call {
                        dest: Some(r as u64),
                        ret: Ty::I64,
                        callee: "js_get_string_pointer_unified"@,
                        args: seq![(Ty::Double, vv[i as int])],
                    };
                    lemma_append_cur_twice(st, acc_insts, seq![c]);
                    assert(args_view(out@) =~= args_view(prev).push((Ty::I64, OperandV::Reg(r as u64))));
                    let (ti, ta, tr) = coerce_from(kinds@, vv, i + 1, r + 1);
                    assert(acc_insts + (seq![c] + ti) =~= (acc_insts + seq![c]) + ti);
                    assert(acc_args + (seq![(Ty::I64, OperandV::Reg(r as u64))] + ta) =~= acc_args.push((Ty::I64, OperandV::Reg(r as u64))) + ta);
                    acc_insts = acc_insts + seq![c];
                    acc_args = acc_args.push((Ty::I64, OperandV::Reg(r as u64)));
                }
            },
            NativeArgKind::PtrI64 => {
                let v = copy_operand(&vals[i]);
                let h = b.fresh_reg();
                b.push(Inst::UnboxToI64 { dest: h, val: v });
                let ghost prev = out@;
                out.push((Ty::I64, Operand::Reg(h)));
                proof {
                    let c = InstV::UnboxToI64 { dest: r as u64, val: vv[i as int] };
                    lemma_append_cur_twice(st, acc_insts, seq![c]);
                    assert(args_view(out@) =~= args_view(prev).push((Ty::I64, OperandV::Reg(r as u64))));
                    let (ti, ta, tr) = coerce_from(kinds@, vv, i + 1, r + 1);
                    assert(acc_insts + (seq![c] + ti) =~= (acc_insts + seq![c]) + ti);
                    assert(acc_args + (seq![(Ty::I64, OperandV::Reg(r as u64))] + ta) =~= acc_args.push((Ty::I64, OperandV::Reg(r as u64))) + ta);
                    acc_insts = acc_insts + seq![c];
                    acc_args = acc_args.push((Ty::I64, OperandV::Reg(r as u64)));
                }
            },
            NativeArgKind::JsvalI64 => {
                // The NaN-boxed bits as is: the callee interprets them.
                let v = copy_operand(&vals[i]);
                let h = b.fresh_reg();
                b.push(Inst::BitcastDoubleToI64 { dest: h, val: v });
                let ghost prev = out@;
                out.push((Ty::I64, Operand::Reg(h)));
                proof {
                    let c = InstV::BitcastDoubleToI64 { dest: r as u64, val: vv[i as int] };
                    lemma_append_cur_twice(st, acc_insts, seq![c]);
                    assert(args_view(out@) =~= args_view(prev).push((Ty::I64, OperandV::Reg(r as u64))));
                    let (ti, ta, tr) = coerce_from(kinds@, vv, i + 1, r + 1);
                    assert(acc_insts + (seq![c] + ti) =~= (acc_insts + seq![c]) + ti);
                    assert(acc_args + (seq![(Ty::I64, OperandV::Reg(r as u64))] + ta) =~= acc_args.push((Ty::I64, OperandV::Reg(r as u64))) + ta);
                    acc_insts = acc_insts + seq![c];
                    acc_args = acc_args.push((Ty::I64, OperandV::Reg(r as u64)));
                }
            },
        }
        i = i + 1;
    }
    proof {
        assert(acc_insts + Seq::<InstV>::empty() =~= acc_insts);
        assert(acc_args + Seq::<(Ty, OperandV)>::empty() =~= acc_args);
    }
}


/// Emits the padding of the declared positions from `j` on, appending the
/// typed arguments to `out`.
fn emit_padding(b: &mut FnBuilder, kinds: &[NativeArgKind], j: usize, out: &mut Vec<Arg>)
    requires
        old(b)@.wf(),
        old(b)@.next_reg + kinds@.len() + 1 <= u64::MAX,
    ensures
        ({
            let (insts, args, next) = pad_from(kinds@, j as int, old(b)@.next_reg);
            &&& final(b)@ == (FnBuilderV { next_reg: next, ..old(b)@ }).append_cur(insts)
            &&& args_view(final(out)@) == args_view(old(out)@) + args
        }),
        final(b)@.wf(),
{
    let ghost pre = b@;
    let ghost out0 = args_view(out@);
    let ghost total = pad_from(kinds@, j as int, pre.next_reg);
    proof {
        lemma_append_cur_empty(pre);
    }
    let ghost mut acc_insts: Seq<InstV> = Seq::empty();
    let ghost mut acc_args: Seq<(Ty, OperandV)> = Seq::empty();
    let mut k = j;
    while k < kinds.len()
        invariant
            pre.wf(),
            pre == old(b)@,
            out0 == args_view(old(out)@),
            total == pad_from(kinds@, j as int, pre.next_reg),
            j <= k || kinds@.len() <= j,
            pre.next_reg + kinds@.len() + 1 <= u64::MAX,
            b@.next_reg <= pre.next_reg + (if k > j { k - j } else { 0 }),
            b@ == (FnBuilderV { next_reg: b@.next_reg, ..pre }).append_cur(acc_insts),
            args_view(out@) == out0 + acc_args,
            ({
                let (ti, ta, tr) = pad_from(kinds@, k as int, b@.next_reg);
                &&& acc_insts + ti == total.0
                &&& acc_args + ta == total.1
                &&& tr == total.2
            }),
        decreases kinds@.len() - k,
    {
        let ghost r = b@.next_reg;
        match kinds[k] {
            NativeArgKind::F64 => {
                let ghost prev = out@;
                out.push((Ty::Double, Operand::Tag(JsTag::Undefined)));
                proof {
                    let x = (Ty::Double, OperandV::Tag(JsTag::Undefined));
                    assert(args_view(out@) =~= args_view(prev).push(x));
                    let (ti, ta, tr) = pad_from(kinds@, k + 1, r);
                    assert(acc_args + (seq![x] + ta) =~= acc_args.push(x) + ta);
                    acc_args = acc_args.push(x);
                }
            },
            NativeArgKind::VarArgsAsArray => {
                // No user args at this position: an empty array.
                let a = vec![(Ty::I32, Operand::Int(0))];
                assert(args_view(a@) =~= seq![(Ty::I32, OperandV::Int(0))]);
                let arr = b.call(Ty::I64, "js_array_alloc", a);
                let ghost prev = out@;
                out.push((Ty::I64, Operand::Reg(arr)));
                proof {
                    let c = InstV::Call {
                        dest: Some(r as u64),
                        ret: Ty::I64,
                        callee: "js_array_alloc"@,
                        args: seq![(Ty::I32, OperandV::Int(0))],
                    };
                    let x = (Ty::I64, OperandV::Reg(r as u64));
                    lemma_append_cur_twice(FnBuilderV { next_reg: r + 1, ..pre }, acc_insts, seq![c]);
                    assert(args_view(out@) =~= args_view(prev).push(x));
                    let (ti, ta, tr) = pad_from(kinds@, k + 1, r + 1);
                    assert(acc_insts + (seq![c] + ti) =~= (acc_insts + seq![c]) + ti);
                    assert(acc_args + (seq![x] + ta) =~= acc_args.push(x) + ta);
                    acc_insts = acc_insts + seq![c];
                    acc_args = acc_args.push(x);
                }
            },
            _ => {
                let ghost prev = out@;
                out.push((Ty::I64, Operand::Int(0)));
                proof {
                    let x = (Ty::I64, OperandV::Int(0));
                    assert(args_view(out@) =~= args_view(prev).push(x));
                    let (ti, ta, tr) = pad_from(kinds@, k + 1, r);
                    assert(acc_args + (seq![x] + ta) =~= acc_args.push(x) + ta);
                    acc_args = acc_args.push(x);
                }
            },
        }
        k = k + 1;
    }
    proof {
        assert(acc_insts + Seq::<InstV>::empty() =~= acc_insts);
        assert(acc_args + Seq::<(Ty, OperandV)>::empty() =~= acc_args);
    }
}

/// The LLVM return type a runtime function is declared with.
pub open spec fn ret_ty_of(r: NativeRetKind) -> Ty {
    match r {
        NativeRetKind::Ptr => Ty::I64,
        NativeRetKind::Str => Ty::I64,
        NativeRetKind::ObjFromJsonStr => Ty::I64,
        NativeRetKind::BigInt => Ty::I64,
        NativeRetKind::F64 => Ty::Double,
        NativeRetKind::I32Void => Ty::I32,
        NativeRetKind::Void => Ty::Void,
    }
}

/// The call of the runtime function and the boxing of its result, from
/// register `r`: `(instructions, result, next register)`.
pub open spec fn ret_insts(ret: NativeRetKind, runtime: Seq<char>, args: Seq<(Ty, OperandV)>, r: int) -> (
    Seq<InstV>,
    OperandV,
    int,
) {
    let call = InstV::Call { dest: Some(r as u64), ret: ret_ty_of(ret), callee: runtime, args };
    match ret {
        NativeRetKind::Ptr => (
            seq![call, InstV::NanboxPointer { dest: (r + 1) as u64, val: OperandV::Reg(r as u64) }],
            OperandV::Reg((r + 1) as u64),
            r + 2,
        ),
        NativeRetKind::Str => (
            seq![
                call,
                InstV::IntEq { dest: (r + 1) as u64, ty: Ty::I64, lhs: OperandV::Reg(r as u64), rhs: OperandV::Int(0) },
                InstV::NanboxString { dest: (r + 2) as u64, val: OperandV::Reg(r as u64) },
                InstV::Select {
                    dest: (r + 3) as u64,
                    cond: OperandV::Reg((r + 1) as u64),
                    ty: Ty::Double,
                    if_true: OperandV::Tag(JsTag::Null),
                    if_false: OperandV::Reg((r + 2) as u64),
                },
            ],
            OperandV::Reg((r + 3) as u64),
            r + 4,
        ),
        NativeRetKind::ObjFromJsonStr => (
            seq![
                call,
                InstV::Call {
                    dest: Some((r + 1) as u64),
                    ret: Ty::I64,
                    callee: "js_json_parse_or_null"@,
                    args: seq![(Ty::I64, OperandV::Reg(r as u64))],
                },
                InstV::BitcastI64ToDouble { dest: (r + 2) as u64, val: OperandV::Reg((r + 1) as u64) },
            ],
            OperandV::Reg((r + 2) as u64),
            r + 3,
        ),
        NativeRetKind::BigInt => (
            seq![call, InstV::NanboxBigInt { dest: (r + 1) as u64, val: OperandV::Reg(r as u64) }],
            OperandV::Reg((r + 1) as u64),
            r + 2,
        ),
        NativeRetKind::F64 => (seq![call], OperandV::Reg(r as u64), r + 1),
        NativeRetKind::I32Void => (seq![call], OperandV::Tag(JsTag::Undefined), r + 1),
        NativeRetKind::Void => (
            seq![InstV::Call { dest: None, ret: Ty::Void, callee: runtime, args }],
            OperandV::Tag(JsTag::Undefined),
            r,
        ),
    }
}

/// The LLVM arguments of a dispatched call: the receiver handle when there
/// is one, the coerced user arguments, then the padding.
pub open spec fn dispatch_args(
    kinds: Seq<NativeArgKind>,
    recv: Option<OperandV>,
    vals: Seq<OperandV>,
    r: int,
) -> (Seq<InstV>, Seq<(Ty, OperandV)>, int) {
    let head = match recv {
        Some(h) => seq![(Ty::I64, h)],
        None => Seq::empty(),
    };
    let (ci, ca, cr) = coerce_from(kinds, vals, 0, r);
    let (pi, pa, pr) = pad_from(kinds, vals.len() as int, cr);
    (ci + pi, head + ca + pa, pr)
}

/// The function state and result after a dispatched call of `sig`.
pub open spec fn native_dispatch_result(
    pre: FnBuilderV,
    sig: NativeModSig,
    recv: Option<OperandV>,
    vals: Seq<OperandV>,
) -> (FnBuilderV, OperandV) {
    let (ai, args, r) = dispatch_args(sig.args@, recv, vals, pre.next_reg);
    let (ri, result, next) = ret_insts(sig.ret, sig.runtime@, args, r);
    let decl = DeclareV { name: sig.runtime@, ret: ret_ty_of(sig.ret), params: args.map_values(|a: (Ty, OperandV)| a.0) };
    let declares = if sig.ret == NativeRetKind::ObjFromJsonStr {
        pre.declares.push(decl).push(DeclareV { name: "js_json_parse_or_null"@, ret: Ty::I64, params: seq![Ty::I64] })
    } else {
        pre.declares.push(decl)
    };
    ((FnBuilderV { next_reg: next, declares, ..pre }).append_cur(ai + ri), result)
}

/// The LLVM types of typed arguments.
fn arg_types(args: &Vec<Arg>) -> (tys: Vec<Ty>)
    ensures
        tys@ == args_view(args@).map_values(|a: (Ty, OperandV)| a.0),
{
    let mut tys: Vec<Ty> = Vec::new();
    let mut i: usize = 0;
    while i < args.len()
        invariant
            i <= args@.len(),
            tys@ =~= args_view(args@).take(i as int).map_values(|a: (Ty, OperandV)| a.0),
        decreases args@.len() - i,
    {
        tys.push(args[i].0);
        proof {
            assert(args_view(args@).take(i + 1) =~= args_view(args@).take(i as int).push(args_view(args@)[i as int]));
        }
        i = i + 1;
    }
    proof {
        assert(args_view(args@).take(args@.len() as int) =~= args_view(args@));
    }
    tys
}

/// Lowers a native module call through its dispatch-table row `sig`: the
/// receiver handle `recv_i64` (for instance methods) and the lowered user
/// arguments, coerced per the row's argument kinds (extra arguments as
/// `double`, a `VarArgsAsArray` position packing the rest into an array),
/// padded for missing declared arguments; the runtime function declared with
/// exactly the argument types it is called with; and its result boxed per
/// the row's return kind. Returns the call's value.
pub fn lower_native_module_dispatch(
    b: &mut FnBuilder,
    sig: &NativeModSig,
    recv_i64: Option<Operand>,
    lowered_args: &Vec<Operand>,
) -> (res: Operand)
    requires
        old(b)@.wf(),
        lowered_args@.len() <= u32::MAX,
        old(b)@.next_reg + 3 * lowered_args@.len() + sig.args@.len() + 8 <= u64::MAX,
    ensures
        ({
            let (post, result) = native_dispatch_result(
                old(b)@,
                *sig,
                match recv_i64 {
                    Some(h) => Some(h@),
                    None => None,
                },
                operands_view(lowered_args@),
            );
            &&& final(b)@ == post
            &&& res@ == result
        }),
        final(b)@.wf(),
{
    let ghost pre = b@;
    let ghost vv = operands_view(lowered_args@);
    let ghost rv = match &recv_i64 {
        Some(h) => Some(h@),
        None => None::<OperandV>,
    };
    let mut llvm_args: Vec<Arg> = Vec::new();
    if let Some(handle) = recv_i64 {
        llvm_args.push((Ty::I64, handle));
    }
    let ghost head = args_view(llvm_args@);
    proof {
        assert(head =~= match rv {
            Some(h) => seq![(Ty::I64, h)],
            None => Seq::<(Ty, OperandV)>::empty(),
        });
        lemma_coerce_regs(sig.args@, vv, 0, pre.next_reg);
    }
    emit_coerced_args(b, sig.args, lowered_args, &mut llvm_args);
    let ghost (ci, ca, cr) = coerce_from(sig.args@, vv, 0, pre.next_reg);
    proof {
        if vv.len() <= sig.args@.len() {
            lemma_pad_regs(sig.args@, vv.len() as int, cr);
        }
    }
    if lowered_args.len() <= sig.args.len() {
        emit_padding(b, sig.args, lowered_args.len(), &mut llvm_args);
    } else {
        proof {
            lemma_append_cur_empty(b@);
        }
    }
    let ghost (ai, args, r) = dispatch_args(sig.args@, rv, vv, pre.next_reg);
    proof {
        lemma_append_cur_twice(FnBuilderV { next_reg: r, ..pre }, ci, pad_from(sig.args@, vv.len() as int, cr).0);
        assert(args_view(llvm_args@) =~= args);
        assert(b@ == (FnBuilderV { next_reg: r, ..pre }).append_cur(ai));
    }
    let ret_type = match sig.ret {
        NativeRetKind::Ptr | NativeRetKind::Str | NativeRetKind::ObjFromJsonStr | NativeRetKind::BigInt => Ty::I64,
        NativeRetKind::F64 => Ty::Double,
        NativeRetKind::I32Void => Ty::I32,
        NativeRetKind::Void => Ty::Void,
    };
    let tys = arg_types(&llvm_args);
    let ghost decl = DeclareV {
        name: sig.runtime@,
        ret: ret_ty_of(sig.ret),
        params: args.map_values(|a: (Ty, OperandV)| a.0),
    };
    b.declare(sig.runtime, ret_type, tys);
    if sig.ret == NativeRetKind::ObjFromJsonStr {
        // Declared before the call so the parse helper is available.
        let p = vec![Ty::I64];
        assert(p@ =~= seq![Ty::I64]);
        b.declare("js_json_parse_or_null", Ty::I64, p);
    }
    let ghost declares = b@.declares;
    let ghost (ri, result, next) = ret_insts(sig.ret, sig.runtime@, args, r);
    proof {
        assert(r <= pre.next_reg + 2 * vv.len() + 1 + sig.args@.len());
        assert(declares == native_dispatch_result_declares(pre, *sig, decl));
    }
    let res = emit_ret(b, sig.ret, sig.runtime, llvm_args);
    proof {
        let base = FnBuilderV { next_reg: next, declares, ..pre };
        assert(FnBuilderV { next_reg: next, ..FnBuilderV { declares, ..(FnBuilderV { next_reg: r, ..pre }).append_cur(ai) } } == base.append_cur(ai));
        lemma_append_cur_twice(base, ai, ri);
    }
    res
}

/// The pending declarations after a dispatched call: the runtime function,
/// then the JSON parse helper for `ObjFromJsonStr`.
spec fn native_dispatch_result_declares(pre: FnBuilderV, sig: NativeModSig, decl: DeclareV) -> Seq<DeclareV> {
    if sig.ret == NativeRetKind::ObjFromJsonStr {
        pre.declares.push(decl).push(DeclareV { name: "js_json_parse_or_null"@, ret: Ty::I64, params: seq![Ty::I64] })
    } else {
        pre.declares.push(decl)
    }
}

/// Emits the call of `runtime` with `args` and the boxing of its result per
/// `ret`.
fn emit_ret(b: &mut FnBuilder, ret: NativeRetKind, runtime: &str, args: Vec<Arg>) -> (res: Operand)
    requires
        old(b)@.wf(),
        old(b)@.next_reg + 4 <= u64::MAX,
    ensures
        ({
            let (insts, result, next) = ret_insts(ret, runtime@, args_view(args@), old(b)@.next_reg);
            &&& final(b)@ == (FnBuilderV { next_reg: next, ..old(b)@ }).append_cur(insts)
            &&& res@ == result
        }),
        final(b)@.wf(),
{
    let ghost pre = b@;
    let ghost r = pre.next_reg;
    let ghost (want, _, next) = ret_insts(ret, runtime@, args_view(args@), r);
    match ret {
        NativeRetKind::Ptr => {
            let raw = b.call(Ty::I64, runtime, args);
            let boxed = b.fresh_reg();
            b.push(Inst::NanboxPointer { dest: boxed, val: Operand::Reg(raw) });
            proof {
                lemma_append_cur_twice(FnBuilderV { next_reg: next, ..pre }, seq![want[0]], seq![want[1]]);
                assert(seq![want[0]] + seq![want[1]] =~= want);
            }
            Operand::Reg(boxed)
        },
        NativeRetKind::Str => {
            // A null string pointer reads as `null`, not a dangling string.
            let raw = b.call(Ty::I64, runtime, args);
            let is_null = b.fresh_reg();
            b.push(Inst::IntEq { dest: is_null, ty: Ty::I64, lhs: Operand::Reg(raw), rhs: Operand::Int(0) });
            let boxed = b.fresh_reg();
            b.push(Inst::NanboxString { dest: boxed, val: Operand::Reg(raw) });
            let sel = b.fresh_reg();
            b.push(Inst::Select {
                dest: sel,
                cond: Operand::Reg(is_null),
                ty: Ty::Double,
                if_true: Operand::Tag(JsTag::Null),
                if_false: Operand::Reg(boxed),
            });
            proof {
                let s4 = FnBuilderV { next_reg: next, ..pre };
                lemma_append_cur_twice(s4, seq![want[0]], seq![want[1]]);
                lemma_append_cur_twice(s4, seq![want[0]] + seq![want[1]], seq![want[2]]);
                lemma_append_cur_twice(s4, seq![want[0]] + seq![want[1]] + seq![want[2]], seq![want[3]]);
                assert(seq![want[0]] + seq![want[1]] + seq![want[2]] + seq![want[3]] =~= want);
            }
            Operand::Reg(sel)
        },
        NativeRetKind::ObjFromJsonStr => {
            // JSON text parsed into the value user code sees; null stays null.
            let raw = b.call(Ty::I64, runtime, args);
            let a = vec![(Ty::I64, Operand::Reg(raw))];
            assert(args_view(a@) =~= seq![(Ty::I64, OperandV::Reg(raw))]);
            let parsed = b.call(Ty::I64, "js_json_parse_or_null", a);
            let d = b.fresh_reg();
            b.push(Inst::BitcastI64ToDouble { dest: d, val: Operand::Reg(parsed) });
            proof {
                let s3 = FnBuilderV { next_reg: next, ..pre };
                lemma_append_cur_twice(s3, seq![want[0]], seq![want[1]]);
                lemma_append_cur_twice(s3, seq![want[0]] + seq![want[1]], seq![want[2]]);
                assert(seq![want[0]] + seq![want[1]] + seq![want[2]] =~= want);
            }
            Operand::Reg(d)
        },
        NativeRetKind::BigInt => {
            let raw = b.call(Ty::I64, runtime, args);
            let boxed = b.fresh_reg();
            b.push(Inst::NanboxBigInt { dest: boxed, val: Operand::Reg(raw) });
            proof {
                lemma_append_cur_twice(FnBuilderV { next_reg: next, ..pre }, seq![want[0]], seq![want[1]]);
                assert(seq![want[0]] + seq![want[1]] =~= want);
            }
            Operand::Reg(boxed)
        },
        NativeRetKind::F64 => Operand::Reg(b.call(Ty::Double, runtime, args)),
        NativeRetKind::I32Void => {
            b.call(Ty::I32, runtime, args);
            Operand::Tag(JsTag::Undefined)
        },
        NativeRetKind::Void => {
            b.call_void(runtime, args);
            Operand::Tag(JsTag::Undefined)
        },
    }
}

/// A dispatched runtime function is declared with exactly the parameter
/// types of the arguments it is called with, and with the return type it is
/// called at.
pub proof fn law_dispatch_declares_what_it_calls(
    pre: FnBuilderV,
    sig: NativeModSig,
    recv: Option<OperandV>,
    vals: Seq<OperandV>,
)
    requires
        pre.wf(),
    ensures
        ({
            let (post, _) = native_dispatch_result(pre, sig, recv, vals);
            let (ai, args, r) = dispatch_args(sig.args@, recv, vals, pre.next_reg);
            let call = ret_insts(sig.ret, sig.runtime@, args, r).0[0];
            let decl = post.declares[pre.declares.len() as int];
            &&& post.declares.len() > pre.declares.len()
            &&& decl.name == sig.runtime@
            &&& call->Call_callee == sig.runtime@
            &&& decl.params == call->Call_args.map_values(|a: (Ty, OperandV)| a.0)
            &&& decl.ret == call->Call_ret
        }),
{
}

/// The native module method a chained call `native(...).prop(args)`
/// forwards to: the inner native call's module and `prop`, when the
/// dispatch table has a receiver row for them.
pub open spec fn native_chain_target(callee: Expr) -> Option<(Seq<char>, Seq<char>, NativeModSig)> {
    match callee {
        Expr::PropertyGet { object, property } => match *object {
            Expr::NativeMethodCall { module, .. } => match native_module_lookup_spec(module@, true, property@, None) {
                Some(sig) => Some((module@, property@, sig)),
                None => None,
            },
            _ => None,
        },
        _ => None,
    }
}

/// Resolves a chained call on the result of a native method call, such as
/// `app.server.on(event, cb)`: when `callee` reads property `P` off a
/// native method call of module `M` and the dispatch table has a receiver
/// row for `(M, P)`, the call is a native method call of `M.P` on that
/// result; answers `(M, P, row)`. `None` leaves the call to the generic
/// lowering.
pub fn try_lower_native_chain_method_call(callee: &Expr) -> (res: Option<(String, String, NativeModSig)>)
    ensures
        match (res, native_chain_target(*callee)) {
            (None, None) => true,
            (Some((m, p, s)), Some((mt, pt, st))) => m@ == mt && p@ == pt && s == st,
            _ => false,
        },
{
    if let Expr::PropertyGet { object, property } = callee {
        if let Expr::NativeMethodCall { module, .. } = &**object {
            if let Some(sig) = native_module_lookup(module.as_str(), true, property.as_str(), None) {
                return Some((module.clone(), property.clone(), sig));
            }
        }
    }
    None
}

/// Lowers a chained call on the result of a native method call, such as
/// `app.server.on(event, cb)` (see `native_chain_target`): when the
/// dispatch table has a receiver row for the inner call's module and the
/// property, the call of that row (`native_dispatch_result`) on
/// `recv_handle`, the handle of the inner call's value, with the lowered
/// arguments; else `None`, with nothing emitted.
pub fn lower_native_chain_method_call(b: &mut FnBuilder, callee: &Expr, recv_handle: Operand, lowered_args: &Vec<Operand>) -> (res:
    Option<Operand>)
    requires
        old(b)@.wf(),
        lowered_args@.len() <= u32::MAX,
        native_chain_target(*callee) matches Some((_, _, sig)) ==> old(b)@.next_reg + 3 * lowered_args@.len()
            + sig.args@.len() + 8 <= u64::MAX,
    ensures
        final(b)@.wf(),
        match native_chain_target(*callee) {
            Some((_, _, sig)) => {
                let (post, v) = native_dispatch_result(old(b)@, sig, Some(recv_handle@), operands_view(lowered_args@));
                res matches Some(o) && o@ == v && final(b)@ == post
            },
            None => res is None && final(b)@ == old(b)@,
        },
{
    match try_lower_native_chain_method_call(callee) {
        Some((_, _, sig)) => Some(lower_native_module_dispatch(b, &sig, Some(recv_handle), lowered_args)),
        None => None,
    }
}

} // verus!
