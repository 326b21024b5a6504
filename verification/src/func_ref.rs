//! Direct calls of functions of the module being compiled
//! (`Call { callee: FuncRef(id) }`): the clamp fast paths, rest bundling and
//! the synthetic `arguments` object, the dynamic-`this` reset, and the
//! generator prototype attachment.

use vstd::prelude::*;

use crate::call_args::{func_ref_call_slots, func_ref_call_slots_spec, ArgSlot, FuncSig};
use crate::ir::{
    args_view, lemma_append_cur_twice, operands_view, Arg, FnBuilder, FnBuilderV, Inst, InstV, JsTag, Operand,
    OperandV, Ty,
};
use crate::hir::Expr;
use crate::marshal::{as_double_args, emit_slots, slots_in_range, slots_result};

verus! {

/// Which lowering a direct call of a local function takes.
#[derive(Copy, Clone, Debug, PartialEq, Eq, Structural)]
pub enum FuncRefCallKind {
    /// `clampIdx(v, lo, hi)` with three i32-lowerable arguments:
    /// `smin(smax(v, lo), hi)` in i32, then `sitofp`.
    Clamp3,
    /// `clampU8(v)`: `smin(smax(v, 0), 255)` in i32, then `sitofp`.
    ClampU8,
    /// The function has no emitted name: the arguments are evaluated for
    /// their effects and the call yields `0.0`.
    Unnamed,
    /// A direct call of the named function.
    Direct,
}

/// Decides which lowering a direct call of a local function takes.
pub fn func_ref_call_kind(is_clamp3: bool, args_are_i32: bool, is_clamp_u8: bool, nargs: usize, has_name: bool)
    -> (res: FuncRefCallKind)
    ensures
        res == if is_clamp3 && nargs == 3 && args_are_i32 {
            FuncRefCallKind::Clamp3
        } else if is_clamp_u8 && nargs == 1 {
            FuncRefCallKind::ClampU8
        } else if !has_name {
            FuncRefCallKind::Unnamed
        } else {
            FuncRefCallKind::Direct
        },
{
    if is_clamp3 && nargs == 3 && args_are_i32 {
        FuncRefCallKind::Clamp3
    } else if is_clamp_u8 && nargs == 1 {
        FuncRefCallKind::ClampU8
    } else if !has_name {
        FuncRefCallKind::Unnamed
    } else {
        FuncRefCallKind::Direct
    }
}

/// The three instructions of a clamp: `smax(v, lo)`, `smin(_, hi)`, `sitofp`.
pub open spec fn clamp_insts(v: OperandV, lo: OperandV, hi: OperandV, r: int) -> Seq<InstV> {
    seq![
        InstV::Call {
            dest: Some(r as u64),
            ret: Ty::I32,
            callee: "llvm.smax.i32"@,
            args: seq![(Ty::I32, v), (Ty::I32, lo)],
        },
        InstV::Call {
            dest: Some((r + 1) as u64),
            ret: Ty::I32,
            callee: "llvm.smin.i32"@,
            args: seq![(Ty::I32, OperandV::Reg(r as u64)), (Ty::I32, hi)],
        },
        InstV::Sitofp { dest: (r + 2) as u64, from: Ty::I32, val: OperandV::Reg((r + 1) as u64) },
    ]
}

/// Emits `sitofp(smin(smax(v, lo), hi))` on i32 operands and returns the
/// register of the `double` result. `clampU8(v)` is `emit_clamp(v, 0, 255)`.
pub fn emit_clamp(b: &mut FnBuilder, v: Operand, lo: Operand, hi: Operand) -> (res: u64)
    requires
        old(b)@.wf(),
        old(b)@.next_reg + 3 <= u64::MAX,
    ensures
        res == old(b)@.next_reg + 2,
        final(b)@ == (FnBuilderV { next_reg: old(b)@.next_reg + 3, ..old(b)@ }).append_cur(
            clamp_insts(v@, lo@, hi@, old(b)@.next_reg),
        ),
        final(b)@.wf(),
{
    let ghost pre = b@;
    let ghost want = clamp_insts(v@, lo@, hi@, pre.next_reg);
    let ghost hv = hi@;
    let a1 = vec![(Ty::I32, v), (Ty::I32, lo)];
    assert(args_view(a1@) =~= want[0]->Call_args);
    let r1 = b.call(Ty::I32, "llvm.smax.i32", a1);
    let a2 = vec![(Ty::I32, Operand::Reg(r1)), (Ty::I32, hi)];
    assert(args_view(a2@) =~= want[1]->Call_args);
    let r2 = b.call(Ty::I32, "llvm.smin.i32", a2);
    let r3 = b.fresh_reg();
    b.push(Inst::Sitofp { dest: r3, from: Ty::I32, val: Operand::Reg(r2) });
    proof {
        let s3 = FnBuilderV { next_reg: pre.next_reg + 3, ..pre };
        lemma_append_cur_twice(s3, seq![want[0]], seq![want[1]]);
        lemma_append_cur_twice(s3, seq![want[0]] + seq![want[1]], seq![want[2]]);
        assert(seq![want[0]] + seq![want[1]] + seq![want[2]] =~= want);
    }
    r3
}

/// The instructions of a direct call after its argument slots, the first
/// register being `r`: the optional `this` reset around the call, and for a
/// generator the wrapping closure and its prototype attachment. Returns
/// `(instructions, result register, next register)`.
pub open spec fn direct_call_insts(
    fname: Seq<char>,
    args: Seq<(Ty, OperandV)>,
    resets_this: bool,
    is_generator: bool,
    r: int,
) -> (Seq<InstV>, int, int) {
    let (pre_insts, call_reg) = if resets_this {
        (
            seq![
                InstV::Call {
                    dest: Some(r as u64),
                    ret: Ty::Double,
                    callee: "js_implicit_this_set"@,
                    args: seq![(Ty::Double, OperandV::Tag(JsTag::Undefined))],
                },
            ],
            r + 1,
        )
    } else {
        (Seq::empty(), r)
    };
    let call = InstV::Call { dest: Some(call_reg as u64), ret: Ty::Double, callee: fname, args };
    let (post_insts, after) = if resets_this {
        (
            seq![
                InstV::Call {
                    dest: Some((call_reg + 1) as u64),
                    ret: Ty::Double,
                    callee: "js_implicit_this_set"@,
                    args: seq![(Ty::Double, OperandV::Reg(r as u64))],
                },
            ],
            call_reg + 2,
        )
    } else {
        (Seq::empty(), call_reg + 1)
    };
    if is_generator {
        (
            pre_insts + seq![call] + post_insts + seq![
                InstV::Call {
                    dest: Some(after as u64),
                    ret: Ty::I64,
                    callee: "js_closure_alloc_singleton"@,
                    args: seq![(Ty::Ptr, OperandV::Global("__perry_wrap_"@ + fname))],
                },
                InstV::Call {
                    dest: Some((after + 1) as u64),
                    ret: Ty::Double,
                    callee: "js_generator_attach_closure_prototype"@,
                    args: seq![(Ty::Double, OperandV::Reg(call_reg as u64)), (Ty::I64, OperandV::Reg(after as u64))],
                },
            ],
            after + 1,
            after + 2,
        )
    } else {
        (pre_insts + seq![call] + post_insts, call_reg, after)
    }
}

/// Emits the call of `fname` with `args`, resetting the implicit `this` to
/// `undefined` around it when the callee reads a dynamic `this`, and
/// attaching the generator prototype when the callee is a generator.
fn emit_direct_call(b: &mut FnBuilder, fname: &str, args: Vec<Arg>, resets_this: bool, is_generator: bool) -> (res: u64)
    requires
        old(b)@.wf(),
        old(b)@.next_reg + 5 <= u64::MAX,
    ensures
        ({
            let (insts, result, next) = direct_call_insts(fname@, args_view(args@), resets_this, is_generator, old(b)@.next_reg);
            &&& res == result
            &&& final(b)@ == (FnBuilderV { next_reg: next, ..old(b)@ }).append_cur(insts)
        }),
        final(b)@.wf(),
{
    let ghost pre = b@;
    let ghost av = args_view(args@);
    let ghost r = pre.next_reg;
    let ghost (want, _, next) = direct_call_insts(fname@, av, resets_this, is_generator, r);
    let prev_this: Option<u64> = if resets_this {
        let a = vec![(Ty::Double, Operand::Tag(JsTag::Undefined))];
        assert(args_view(a@) =~= seq![(Ty::Double, OperandV::Tag(JsTag::Undefined))]);
        Some(b.call(Ty::Double, "js_implicit_this_set", a))
    } else {
        None
    };
    let ghost k0: int = if resets_this { 1 } else { 0 };
    assert(b@ == (FnBuilderV { next_reg: r + k0, ..pre }).append_cur(want.take(k0))) by {
        if !resets_this {
            crate::ir::lemma_append_cur_empty(pre);
            assert(want.take(0) =~= Seq::<InstV>::empty());
        } else {
            assert(want.take(1) =~= seq![want[0]]);
        }
    }
    let result = b.call(Ty::Double, fname, args);
    proof {
        lemma_append_cur_twice(FnBuilderV { next_reg: r + k0 + 1, ..pre }, want.take(k0), seq![want[k0]]);
        assert(want.take(k0) + seq![want[k0]] =~= want.take(k0 + 1));
    }
    let ghost k1: int = if resets_this { k0 + 2 } else { k0 + 1 };
    if let Some(prev) = prev_this {
        let a = vec![(Ty::Double, Operand::Reg(prev))];
        assert(args_view(a@) =~= seq![(Ty::Double, OperandV::Reg(r as u64))]);
        b.call(Ty::Double, "js_implicit_this_set", a);
        proof {
            lemma_append_cur_twice(FnBuilderV { next_reg: r + k1, ..pre }, want.take(k0 + 1), seq![want[k0 + 1]]);
            assert(want.take(k0 + 1) + seq![want[k0 + 1]] =~= want.take(k1));
        }
    }
    assert(b@ == (FnBuilderV { next_reg: r + k1, ..pre }).append_cur(want.take(k1)));
    if is_generator {
        let mut wrap = String::from_str("__perry_wrap_");
        wrap.append(fname);
        let a = vec![(Ty::Ptr, Operand::Global(wrap))];
        assert(args_view(a@) =~= want[k1]->Call_args);
        let closure_handle = b.call(Ty::I64, "js_closure_alloc_singleton", a);
        proof {
            lemma_append_cur_twice(FnBuilderV { next_reg: r + k1 + 1, ..pre }, want.take(k1), seq![want[k1]]);
            assert(want.take(k1) + seq![want[k1]] =~= want.take(k1 + 1));
        }
        let a2 = vec![(Ty::Double, Operand::Reg(result)), (Ty::I64, Operand::Reg(closure_handle))];
        assert(args_view(a2@) =~= want[k1 + 1]->Call_args);
        let wrapped = b.call(Ty::Double, "js_generator_attach_closure_prototype", a2);
        proof {
            lemma_append_cur_twice(FnBuilderV { next_reg: r + k1 + 2, ..pre }, want.take(k1 + 1), seq![want[k1 + 1]]);
            assert(want.take(k1 + 1) + seq![want[k1 + 1]] =~= want);
        }
        return wrapped;
    }
    proof {
        assert(want.take(k1) =~= want);
    }
    result
}

/// The whole emission of a direct call of `fname`, from the function state
/// `pre`, with the lowered arguments `vals`.
pub open spec fn func_ref_call_result(
    pre: FnBuilderV,
    fname: Seq<char>,
    sig: Option<FuncSig>,
    resets_this: bool,
    is_generator: bool,
    vals: Seq<OperandV>,
) -> (FnBuilderV, int) {
    let slots = func_ref_call_slots_spec(sig, vals.len());
    let (slot_insts, ops, next) = slots_result(slots, vals, pre.next_reg);
    let (call_insts, result, after) = direct_call_insts(
        fname,
        ops.map_values(|o: OperandV| (Ty::Double, o)),
        resets_this,
        is_generator,
        next,
    );
    ((FnBuilderV { next_reg: after, ..pre }).append_cur(slot_insts + call_insts), result)
}

/// An upper bound on the number of parameter slots of a local call.
pub open spec fn max_slots(sig: Option<FuncSig>, nargs: nat) -> nat {
    nargs + match sig {
        Some(s) => s.declared_count as nat,
        None => 0,
    } + 2
}

/// Every slot of a local call names an argument that was passed.
proof fn lemma_func_ref_slots_in_range(sig: Option<FuncSig>, nargs: nat)
    ensures
        slots_in_range(func_ref_call_slots_spec(sig, nargs), nargs),
        func_ref_call_slots_spec(sig, nargs).len() <= max_slots(sig, nargs),
{
}

/// Emits a direct call of the local function `fname` (the `Direct` kind)
/// with the lowered arguments `lowered`: the arguments laid out against the
/// callee's parameters (padding, rest array, `arguments` object), then the
/// call with every argument as a `double`, with the implicit-`this` reset
/// and the generator prototype attachment when they apply. Returns the
/// register of the call's value.
pub fn lower_func_ref_call(
    b: &mut FnBuilder,
    fname: &str,
    sig: Option<FuncSig>,
    resets_this: bool,
    is_generator: bool,
    lowered: &Vec<Operand>,
) -> (res: Operand)
    requires
        old(b)@.wf(),
        lowered@.len() <= u32::MAX,
        old(b)@.next_reg + max_slots(sig, lowered@.len()) * (lowered@.len() + 3) + 5 <= u64::MAX,
    ensures
        ({
            let (post, result) = func_ref_call_result(old(b)@, fname@, sig, resets_this, is_generator, operands_view(lowered@));
            &&& final(b)@ == post
            &&& res@ == OperandV::Reg(result as u64)
        }),
        final(b)@.wf(),
{
    let ghost pre = b@;
    let ghost vv = operands_view(lowered@);
    let slots = func_ref_call_slots(sig, lowered.len());
    proof {
        lemma_func_ref_slots_in_range(sig, lowered@.len());
        crate::marshal::lemma_slots_regs(slots@, vv, pre.next_reg);
        let m = max_slots(sig, lowered@.len());
        assert(slots@.len() * (lowered@.len() + 3) <= m * (lowered@.len() + 3)) by (nonlinear_arith)
            requires
                slots@.len() <= m,
        ;
    }
    let ops = emit_slots(b, &slots, lowered);
    let ghost (slot_insts, opv, next) = slots_result(slots@, vv, pre.next_reg);
    let args = as_double_args(ops);
    let r = emit_direct_call(b, fname, args, resets_this, is_generator);
    proof {
        let (ci, _, after) = direct_call_insts(fname@, opv.map_values(|o: OperandV| (Ty::Double, o)), resets_this, is_generator, next);
        lemma_append_cur_twice(FnBuilderV { next_reg: after, ..pre }, slot_insts, ci);
    }
    Operand::Reg(r)
}

/// What is known of the function a `FuncRef` callee names.
#[derive(Clone, Debug)]
pub struct FuncRefInfo {
    /// The function is a recognised `clampIdx(v, lo, hi)`.
    pub is_clamp3: bool,
    /// Every argument of the call lowers as an i32.
    pub args_are_i32: bool,
    /// The function is a recognised `clampU8(v)`.
    pub is_clamp_u8: bool,
    /// The function's emitted name, if it has one.
    pub name: Option<String>,
    /// The function's parameter signature, if recorded.
    pub sig: Option<FuncSig>,
    /// The function's body reads the dynamic `this`.
    pub resets_this: bool,
    /// The function is a generator.
    pub is_generator: bool,
}

/// The lowering kind of a call of the function `info` describes with
/// `nargs` arguments.
pub open spec fn func_ref_kind_of(info: FuncRefInfo, nargs: nat) -> FuncRefCallKind {
    if info.is_clamp3 && nargs == 3 && info.args_are_i32 {
        FuncRefCallKind::Clamp3
    } else if info.is_clamp_u8 && nargs == 1 {
        FuncRefCallKind::ClampU8
    } else if info.name is None {
        FuncRefCallKind::Unnamed
    } else {
        FuncRefCallKind::Direct
    }
}

/// What a call of a local function lowers to, from `pre`, with the
/// arguments `vals` lowered as the kind asks (as i32 values for the clamp
/// kinds, as JS values otherwise): `(state, result)`.
pub open spec fn func_ref_result(pre: FnBuilderV, info: FuncRefInfo, vals: Seq<OperandV>) -> (FnBuilderV, OperandV) {
    let r = pre.next_reg;
    match func_ref_kind_of(info, vals.len()) {
        FuncRefCallKind::Clamp3 => (
            (FnBuilderV { next_reg: r + 3, ..pre }).append_cur(clamp_insts(vals[0], vals[1], vals[2], r)),
            OperandV::Reg((r + 2) as u64),
        ),
        FuncRefCallKind::ClampU8 => (
            (FnBuilderV { next_reg: r + 3, ..pre }).append_cur(
                clamp_insts(vals[0], OperandV::Int(0), OperandV::Int(255), r),
            ),
            OperandV::Reg((r + 2) as u64),
        ),
        FuncRefCallKind::Unnamed => (pre, OperandV::Zero),
        FuncRefCallKind::Direct => {
            let (post, result) = func_ref_call_result(
                pre,
                info.name->0@,
                info.sig,
                info.resets_this,
                info.is_generator,
                vals,
            );
            (post, OperandV::Reg(result as u64))
        },
    }
}

/// Lowers a call whose callee is `FuncRef(fid)` of a function of this
/// module, described by `info`: the clamp fast paths on i32 operands, `0.0`
/// for a function without an emitted name (its arguments evaluated for
/// their effects), else the direct call (see `lower_func_ref_call`).
/// `lowered` are the arguments lowered as `func_ref_call_kind` asks. `None`,
/// with nothing emitted, for any other callee.
pub fn try_lower_func_ref_call(b: &mut FnBuilder, callee: &Expr, info: &FuncRefInfo, lowered: &Vec<Operand>) -> (res:
    Option<Operand>)
    requires
        old(b)@.wf(),
        lowered@.len() <= u32::MAX,
        old(b)@.next_reg + max_slots(info.sig, lowered@.len()) * (lowered@.len() + 3) + 5 <= u64::MAX,
    ensures
        !(*callee is FuncRef) ==> res is None && final(b)@ == old(b)@,
        (*callee is FuncRef) ==> ({
            let (post, result) = func_ref_result(old(b)@, *info, operands_view(lowered@));
            res matches Some(o) && o@ == result && final(b)@ == post
        }),
        final(b)@.wf(),
{
    match callee {
        Expr::FuncRef(_) => {},
        _ => return None,
    }
    let kind = func_ref_call_kind(info.is_clamp3, info.args_are_i32, info.is_clamp_u8, lowered.len(), info.name.is_some());
    match kind {
        FuncRefCallKind::Clamp3 => {
            let r = emit_clamp(
                b,
                crate::ir::copy_operand(&lowered[0]),
                crate::ir::copy_operand(&lowered[1]),
                crate::ir::copy_operand(&lowered[2]),
            );
            Some(Operand::Reg(r))
        },
        FuncRefCallKind::ClampU8 => {
            let r = emit_clamp(b, crate::ir::copy_operand(&lowered[0]), Operand::Int(0), Operand::Int(255));
            Some(Operand::Reg(r))
        },
        FuncRefCallKind::Unnamed => Some(Operand::Zero),
        FuncRefCallKind::Direct => {
            let fname = match &info.name {
                Some(n) => n.as_str(),
                None => "",
            };
            Some(lower_func_ref_call(b, fname, info.sig, info.resets_this, info.is_generator, lowered))
        },
    }
}

} // verus!
