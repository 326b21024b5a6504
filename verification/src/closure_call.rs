//! Calls of closure values through the runtime `js_closure_call<N>` family:
//! a closure-typed local (`counter()`), with a guarded direct call when the
//! closure's function is statically known, and the current async step's
//! closure.

use vstd::prelude::*;

use crate::hir::Expr;
use crate::ir::{
    insts_view, operands_view, Arg, BlockV, FnBuilder, FnBuilderV, Inst, InstV, JsTag, Operand, OperandV, Ty,
};
use crate::text::{decimal, push_decimal};

verus! {

/// Why a call cannot be lowered.
#[derive(Copy, Clone, Debug, PartialEq, Eq, Structural)]
pub enum LowerError {
    /// A closure call with more arguments than the runtime's
    /// `js_closure_call<N>` family takes (at most sixteen).
    ClosureArity { nargs: usize },
    /// A call of the current async step's closure with more than sixteen
    /// arguments.
    CurrentStepArity { nargs: usize },
    /// A call of a namespace import's closure-valued member with more than
    /// sixteen arguments.
    NamespaceClosureArity { nargs: usize },
    /// A general call whose callee has no dedicated lowering, with more
    /// arguments than a closure call takes.
    UnsupportedCallee { nargs: usize },
}

/// The largest number of arguments a `js_closure_call<N>` takes.
pub const MAX_CLOSURE_ARGS: usize = 16;

/// The runtime function that calls a closure with `n` arguments.
pub open spec fn closure_call_runtime_spec(n: nat) -> Seq<char> {
    "js_closure_call"@ + decimal(n)
}

/// The runtime function that calls a closure with `n` arguments:
/// `js_closure_call<n>`.
pub fn closure_call_runtime(n: usize) -> (res: String)
    ensures
        res@ == closure_call_runtime_spec(n as nat),
{
    let mut s = String::from_str("js_closure_call");
    push_decimal(&mut s, n as u64);
    s
}

/// The symbol of the compiled body of closure function `func_id` in the
/// module with symbol prefix `prefix`.
pub open spec fn closure_fn_symbol_spec(prefix: Seq<char>, func_id: u32) -> Seq<char> {
    "perry_closure_"@ + prefix + "__"@ + decimal(func_id as nat)
}

/// The symbol of the compiled body of closure function `func_id`:
/// `perry_closure_<prefix>__<func_id>`.
pub fn closure_fn_symbol(prefix: &str, func_id: u32) -> (res: String)
    ensures
        res@ == closure_fn_symbol_spec(prefix@, func_id),
{
    let mut s = String::from_str("perry_closure_");
    s.append(prefix);
    s.append("__");
    push_decimal(&mut s, func_id as u64);
    s
}

/// The arguments of a closure call: the closure's handle, then the user
/// arguments as `double`s.
pub open spec fn closure_args(handle: OperandV, vals: Seq<OperandV>) -> Seq<(Ty, OperandV)> {
    seq![(Ty::I64, handle)] + vals.map_values(|v: OperandV| (Ty::Double, v))
}

/// Builds the arguments of a closure call.
pub fn closure_call_args_pub(handle: Operand, vals: &Vec<Operand>) -> (res: Vec<Arg>)
    ensures
        crate::ir::args_view(res@) == closure_args(handle@, operands_view(vals@)),
{
    closure_call_args(handle, vals)
}

/// Builds the arguments of a closure call.
fn closure_call_args(handle: Operand, vals: &Vec<Operand>) -> (res: Vec<Arg>)
    ensures
        crate::ir::args_view(res@) == closure_args(handle@, operands_view(vals@)),
{
    let ghost want = closure_args(handle@, operands_view(vals@));
    let mut out: Vec<Arg> = Vec::new();
    out.push((Ty::I64, handle));
    let mut i: usize = 0;
    while i < vals.len()
        invariant
            i <= vals@.len(),
            want == closure_args(handle@, operands_view(vals@)),
            crate::ir::args_view(out@) =~= want.take(i + 1),
        decreases vals@.len() - i,
    {
        let ghost prev = out@;
        out.push((Ty::Double, crate::ir::copy_operand(&vals[i])));
        proof {
            assert(crate::ir::args_view(out@) =~= crate::ir::args_view(prev).push(want[i + 1]));
            assert(want.take(i + 2) =~= want.take(i + 1).push(want[i + 1]));
        }
        i = i + 1;
    }
    assert(want.take(vals@.len() + 1int) =~= want);
    out
}

/// `dest = call double @js_implicit_this_set(double value)`: binds the
/// dynamic `this` to `value` and yields the previous binding.
pub open spec fn set_this(dest: int, value: OperandV) -> InstV {
    InstV::Call {
        dest: Some(dest as u64),
        ret: Ty::Double,
        callee: "js_implicit_this_set"@,
        args: seq![(Ty::Double, value)],
    }
}

fn set_this_inst(dest: u64, value: Operand) -> (res: Inst)
    ensures
        res@ == set_this(dest as int, value@),
{
    let a = vec![(Ty::Double, value)];
    assert(crate::ir::args_view(a@) =~= seq![(Ty::Double, a@[0].1@)]);
    Inst::Call { dest: Some(dest), ret: Ty::Double, callee: String::from_str("js_implicit_this_set"), args: a }
}

/// A generic closure call from register `r`: the handle unboxed, `this`
/// bound to `undefined` around a `js_closure_call<N>`, then restored.
pub open spec fn generic_closure_call(recv: OperandV, vals: Seq<OperandV>, r: int) -> Seq<InstV> {
    seq![
        InstV::UnboxToI64 { dest: r as u64, val: recv },
        set_this(r + 1, OperandV::Tag(JsTag::Undefined)),
        InstV::Call {
            dest: Some((r + 2) as u64),
            ret: Ty::Double,
            callee: closure_call_runtime_spec(vals.len()),
            args: closure_args(OperandV::Reg(r as u64), vals),
        },
        set_this(r + 3, OperandV::Reg((r + 1) as u64)),
    ]
}

/// What the compiler knows of a closure-typed local at a call site.
#[derive(Copy, Clone, Debug)]
pub struct ClosureLocalInfo {
    /// The local's static type is a function type.
    pub is_function_typed: bool,
    /// The closure function the local is statically bound to, if known.
    pub known_func_id: Option<u32>,
    /// The number of parameters that function declares, if recorded.
    pub declared_param_count: Option<usize>,
    /// That function has a rest parameter.
    pub has_rest: bool,
    /// That function's body reads the dynamic `this`.
    pub reads_dynamic_this: bool,
}

/// Whether a call of the local takes the guarded direct path: its function
/// is known, has no rest parameter, and the call passes exactly the
/// declared number of arguments (taken as met when none is recorded).
pub open spec fn takes_direct_path(info: ClosureLocalInfo, nargs: nat) -> bool {
    &&& info.known_func_id is Some
    &&& !info.has_rest
    &&& match info.declared_param_count {
        Some(c) => c == nargs,
        None => true,
    }
}

/// The entry part of a guarded direct call from register `r`, with the
/// fast and fallback blocks at `n` and `n + 1`: the closure unboxed,
/// `this` bound to `undefined` when the body reads it, the guard, and the
/// branch on it.
pub open spec fn guarded_entry(
    recv: OperandV,
    nargs: nat,
    site: OperandV,
    closure_fn: Seq<char>,
    reads_this: bool,
    r: int,
    n: int,
) -> Seq<InstV> {
    let k = if reads_this { 1int } else { 0int };
    seq![InstV::UnboxToI64 { dest: r as u64, val: recv }] + (if reads_this {
        seq![set_this(r + 1, OperandV::Tag(JsTag::Undefined))]
    } else {
        Seq::empty()
    }) + seq![
        InstV::Call {
            dest: Some((r + 1 + k) as u64),
            ret: Ty::I32,
            callee: "js_typed_feedback_closure_direct_call_guard"@,
            args: seq![
                (Ty::I64, site),
                (Ty::Double, recv),
                (Ty::Ptr, OperandV::Global(closure_fn)),
                (Ty::I32, OperandV::Int(nargs as u64)),
                (Ty::I32, OperandV::Int(nargs as u64)),
            ],
        },
        InstV::IntNe {
            dest: (r + 2 + k) as u64,
            ty: Ty::I32,
            lhs: OperandV::Reg((r + 1 + k) as u64),
            rhs: OperandV::Int(0),
        },
        InstV::CondBr { cond: OperandV::Reg((r + 2 + k) as u64), if_true: n as usize, if_false: (n + 1) as usize },
    ]
}

/// The fast block: the known body called directly, then on to the merge
/// block `n + 2`.
pub open spec fn guarded_fast(vals: Seq<OperandV>, closure_fn: Seq<char>, reads_this: bool, r: int, n: int) -> Seq<
    InstV,
> {
    let k = if reads_this { 1int } else { 0int };
    seq![
        InstV::Call {
            dest: Some((r + 3 + k) as u64),
            ret: Ty::Double,
            callee: closure_fn,
            args: closure_args(OperandV::Reg(r as u64), vals),
        },
        InstV::Br { target: (n + 2) as usize },
    ]
}

/// The fallback block: the miss recorded, `this` bound to `undefined`
/// around the runtime call unless the entry already did, then on to the
/// merge block.
pub open spec fn guarded_fallback(vals: Seq<OperandV>, site: OperandV, reads_this: bool, r: int, n: int) -> Seq<
    InstV,
> {
    let record = InstV::Call {
        dest: None,
        ret: Ty::Void,
        callee: "js_typed_feedback_record_fallback_call"@,
        args: seq![(Ty::I64, site)],
    };
    let generic_call = InstV::Call {
        dest: Some((r + 5) as u64),
        ret: Ty::Double,
        callee: closure_call_runtime_spec(vals.len()),
        args: closure_args(OperandV::Reg(r as u64), vals),
    };
    if reads_this {
        seq![record, generic_call, InstV::Br { target: (n + 2) as usize }]
    } else {
        seq![
            record,
            set_this(r + 4, OperandV::Tag(JsTag::Undefined)),
            generic_call,
            set_this(r + 6, OperandV::Reg((r + 4) as u64)),
            InstV::Br { target: (n + 2) as usize },
        ]
    }
}

/// The register of the merged result of a guarded direct call.
pub open spec fn guarded_merged(reads_this: bool, r: int) -> int {
    if reads_this { r + 6 } else { r + 7 }
}

/// The merge block: the phi of the two results, then `this` restored when
/// the entry bound it.
pub open spec fn guarded_merge(reads_this: bool, r: int, n: int) -> Seq<InstV> {
    let k = if reads_this { 1int } else { 0int };
    seq![
        InstV::Phi {
            dest: guarded_merged(reads_this, r) as u64,
            ty: Ty::Double,
            incoming: seq![
                (OperandV::Reg((r + 3 + k) as u64), n as usize),
                (OperandV::Reg((r + 5) as u64), (n + 1) as usize),
            ],
        },
    ] + if reads_this {
        seq![set_this(r + 7, OperandV::Reg((r + 1) as u64))]
    } else {
        Seq::empty()
    }
}

/// The function state and result after a guarded direct call of closure
/// function body `closure_fn`, from `pre`. The entry part goes into the
/// current block; the fast, fallback and merge blocks are opened at the end
/// and the merge block becomes current.
pub open spec fn guarded_closure_call_result(
    pre: FnBuilderV,
    recv: OperandV,
    vals: Seq<OperandV>,
    site: OperandV,
    closure_fn: Seq<char>,
    reads_this: bool,
) -> (FnBuilderV, OperandV) {
    let r = pre.next_reg;
    let n = pre.blocks.len() as int;
    let with_entry = pre.append_cur(guarded_entry(recv, vals.len(), site, closure_fn, reads_this, r, n));
    (
        FnBuilderV {
            blocks: with_entry.blocks.push(
                BlockV { name: "closure_direct.fast"@, insts: guarded_fast(vals, closure_fn, reads_this, r, n) },
            ).push(
                BlockV { name: "closure_direct.fallback"@, insts: guarded_fallback(vals, site, reads_this, r, n) },
            ).push(BlockV { name: "closure_direct.merge"@, insts: guarded_merge(reads_this, r, n) }),
            current: n + 2,
            next_reg: r + 8,
            ..pre
        },
        OperandV::Reg(guarded_merged(reads_this, r) as u64),
    )
}

/// The outcome of a call whose callee is a local of function type, from
/// `pre`; `None` when the callee is not such a local.
pub open spec fn closure_local_call_result(
    pre: FnBuilderV,
    callee: Expr,
    info: ClosureLocalInfo,
    module_prefix: Seq<char>,
    site: OperandV,
    recv: OperandV,
    vals: Seq<OperandV>,
) -> Option<Result<(FnBuilderV, OperandV), LowerError>> {
    if !(callee is LocalGet) || !info.is_function_typed {
        None
    } else if vals.len() > 16 {
        Some(Err(LowerError::ClosureArity { nargs: vals.len() as usize }))
    } else if takes_direct_path(info, vals.len()) {
        Some(
            Ok(
                guarded_closure_call_result(
                    pre,
                    recv,
                    vals,
                    site,
                    closure_fn_symbol_spec(module_prefix, info.known_func_id->0),
                    info.reads_dynamic_this,
                ),
            ),
        )
    } else {
        let r = pre.next_reg;
        Some(
            Ok(
                (
                    (FnBuilderV { next_reg: r + 4, ..pre }).append_cur(generic_closure_call(recv, vals, r)),
                    OperandV::Reg((r + 2) as u64),
                ),
            ),
        )
    }
}

/// Lowers a call whose callee is a local of function type (`counter()`),
/// given what is known of the local (`info`), the module's symbol prefix,
/// the typed-feedback site registered for the call (used on the direct
/// path), the lowered callee `recv_box` and the lowered arguments.
///
/// On the direct path (see `takes_direct_path`) a runtime guard checks that
/// the receiver is the statically known closure; if so its compiled body is
/// called directly, else the fallback is recorded and `js_closure_call<N>`
/// is used; a phi joins the two. `this` is bound to `undefined` around the
/// call (on the direct path only when the known body reads it, and around
/// the fallback call otherwise). Off the direct path `js_closure_call<N>` is
/// called with `this` bound to `undefined`. More than sixteen arguments is
/// an error, with nothing emitted; a callee that is not such a local gives
/// `Ok(None)`, with nothing emitted.
pub fn try_lower_closure_typed_local_call(
    b: &mut FnBuilder,
    callee: &Expr,
    info: &ClosureLocalInfo,
    module_prefix: &str,
    site_id: Operand,
    recv_box: Operand,
    lowered_args: &Vec<Operand>,
) -> (res: Result<Option<Operand>, LowerError>)
    requires
        old(b)@.wf(),
        old(b)@.next_reg + 8 <= u64::MAX,
        old(b)@.blocks.len() + 3 <= usize::MAX,
    ensures
        match closure_local_call_result(
            old(b)@,
            *callee,
            *info,
            module_prefix@,
            site_id@,
            recv_box@,
            operands_view(lowered_args@),
        ) {
            None => res == Ok::<Option<Operand>, LowerError>(None) && final(b)@ == old(b)@,
            Some(Err(e)) => res == Err::<Option<Operand>, LowerError>(e) && final(b)@ == old(b)@,
            Some(Ok((post, result))) => res matches Ok(Some(o)) && o@ == result && final(b)@ == post,
        },
        final(b)@.wf(),
{
    let is_local = match callee {
        Expr::LocalGet(_) => true,
        _ => false,
    };
    if !is_local || !info.is_function_typed {
        return Ok(None);
    }
    let nargs = lowered_args.len();
    if nargs > MAX_CLOSURE_ARGS {
        return Err(LowerError::ClosureArity { nargs });
    }
    let direct = match info.known_func_id {
        Some(_) => !info.has_rest && match info.declared_param_count {
            Some(c) => c == nargs,
            None => true,
        },
        None => false,
    };
    if direct {
        let func_id = match info.known_func_id {
            Some(f) => f,
            None => 0,
        };
        let closure_fn = closure_fn_symbol(module_prefix, func_id);
        let merged = emit_guarded_closure_call(b, recv_box, lowered_args, site_id, closure_fn, info.reads_dynamic_this);
        Ok(Some(Operand::Reg(merged)))
    } else {
        Ok(Some(Operand::Reg(emit_generic_closure_call(b, recv_box, lowered_args))))
    }
}

/// Emits a generic closure call and returns the register of its result.
fn emit_generic_closure_call(b: &mut FnBuilder, recv_box: Operand, lowered_args: &Vec<Operand>) -> (res: u64)
    requires
        old(b)@.wf(),
        old(b)@.next_reg + 4 <= u64::MAX,
    ensures
        res == old(b)@.next_reg + 2,
        final(b)@ == (FnBuilderV { next_reg: old(b)@.next_reg + 4, ..old(b)@ }).append_cur(
            generic_closure_call(recv_box@, operands_view(lowered_args@), old(b)@.next_reg),
        ),
        final(b)@.wf(),
{
    let ghost vv = operands_view(lowered_args@);
    let ghost rv = recv_box@;
    let r = b.reserve_regs(4);
    let runtime = closure_call_runtime(lowered_args.len());
    let args = closure_call_args(Operand::Reg(r), lowered_args);
    let insts = vec![
        Inst::UnboxToI64 { dest: r, val: recv_box },
        set_this_inst(r + 1, Operand::Tag(JsTag::Undefined)),
        Inst::Call { dest: Some(r + 2), ret: Ty::Double, callee: runtime, args },
        set_this_inst(r + 3, Operand::Reg(r + 1)),
    ];
    assert(insts_view(insts@) =~= generic_closure_call(rv, vv, r as int));
    b.push_all(insts);
    r + 2
}

/// Emits a guarded direct closure call and returns the register of the
/// merged result.
fn emit_guarded_closure_call(
    b: &mut FnBuilder,
    recv_box: Operand,
    lowered_args: &Vec<Operand>,
    site_id: Operand,
    closure_fn: String,
    reads_this: bool,
) -> (res: u64)
    requires
        old(b)@.wf(),
        old(b)@.next_reg + 8 <= u64::MAX,
        old(b)@.blocks.len() + 3 <= usize::MAX,
        lowered_args@.len() <= 16,
    ensures
        ({
            let (post, result) = guarded_closure_call_result(
                old(b)@,
                recv_box@,
                operands_view(lowered_args@),
                site_id@,
                closure_fn@,
                reads_this,
            );
            &&& final(b)@ == post
            &&& result == OperandV::Reg(res)
        }),
        final(b)@.wf(),
{
    let ghost pre = b@;
    let ghost vv = operands_view(lowered_args@);
    let ghost rv = recv_box@;
    let ghost sv = site_id@;
    let ghost (post, result) = guarded_closure_call_result(pre, recv_box@, vv, site_id@, closure_fn@, reads_this);
    let nargs = lowered_args.len() as u64;
    let r = b.reserve_regs(8);
    let n = b.num_blocks();
    let k: u64 = if reads_this { 1 } else { 0 };
    let guard = r + 1 + k;
    let pass = r + 2 + k;
    let fast_value = r + 3 + k;
    let fallback_value = r + 5;
    let merged = if reads_this { r + 6 } else { r + 7 };
    let runtime = closure_call_runtime(lowered_args.len());

    // Entry: unbox the closure, bind `this`, run the guard and branch.
    let unbox = Inst::UnboxToI64 { dest: r, val: crate::ir::copy_operand(&recv_box) };
    let guard_args = vec![
        (Ty::I64, crate::ir::copy_operand(&site_id)),
        (Ty::Double, recv_box),
        (Ty::Ptr, Operand::Global(closure_fn.clone())),
        (Ty::I32, Operand::Int(nargs)),
        (Ty::I32, Operand::Int(nargs)),
    ];
    assert(crate::ir::args_view(guard_args@) =~= seq![
        (Ty::I64, site_id@),
        (Ty::Double, rv),
        (Ty::Ptr, OperandV::Global(closure_fn@)),
        (Ty::I32, OperandV::Int(nargs)),
        (Ty::I32, OperandV::Int(nargs)),
    ]);
    let guard_call = Inst::Call {
        dest: Some(guard),
        ret: Ty::I32,
        callee: String::from_str("js_typed_feedback_closure_direct_call_guard"),
        args: guard_args,
    };
    let ne = Inst::IntNe { dest: pass, ty: Ty::I32, lhs: Operand::Reg(guard), rhs: Operand::Int(0) };
    let br = Inst::CondBr { cond: Operand::Reg(pass), if_true: n, if_false: n + 1 };
    let ghost parts = seq![unbox@, guard_call@, ne@, br@];
    let entry = if reads_this {
        vec![unbox, set_this_inst(r + 1, Operand::Tag(JsTag::Undefined)), guard_call, ne, br]
    } else {
        vec![unbox, guard_call, ne, br]
    };
    let ghost ev = guarded_entry(rv, vv.len(), sv, closure_fn@, reads_this, r as int, n as int);
    assert(parts[1] == ev[1 + (if reads_this { 1int } else { 0int })]);
    assert(insts_view(entry@) =~= ev);
    b.push_all(entry);
    let ghost s1 = b@;

    let fast_idx = b.new_block("closure_direct.fast");
    let fallback_idx = b.new_block("closure_direct.fallback");
    let merge_idx = b.new_block("closure_direct.merge");

    // Fast path: the statically known body, called directly.
    b.switch_to(fast_idx);
    let fast = vec![
        Inst::Call {
            dest: Some(fast_value),
            ret: Ty::Double,
            callee: closure_fn,
            args: closure_call_args(Operand::Reg(r), lowered_args),
        },
        Inst::Br { target: merge_idx },
    ];
    assert(insts_view(fast@) =~= guarded_fast(vv, closure_fn@, reads_this, r as int, n as int));
    b.push_all(fast);

    // Fallback: some other closure; record it and call through the runtime.
    b.switch_to(fallback_idx);
    let record_args = vec![(Ty::I64, site_id)];
    assert(crate::ir::args_view(record_args@) =~= seq![(Ty::I64, sv)]);
    let record = Inst::Call {
        dest: None,
        ret: Ty::Void,
        callee: String::from_str("js_typed_feedback_record_fallback_call"),
        args: record_args,
    };
    let generic_call = Inst::Call {
        dest: Some(fallback_value),
        ret: Ty::Double,
        callee: runtime,
        args: closure_call_args(Operand::Reg(r), lowered_args),
    };
    let br_merge = Inst::Br { target: merge_idx };
    assert(record@ == guarded_fallback(vv, sv, reads_this, r as int, n as int)[0]);
    let fallback = if reads_this {
        vec![record, generic_call, br_merge]
    } else {
        vec![
            record,
            set_this_inst(r + 4, Operand::Tag(JsTag::Undefined)),
            generic_call,
            set_this_inst(r + 6, Operand::Reg(r + 4)),
            br_merge,
        ]
    };
    assert(insts_view(fallback@) =~= guarded_fallback(vv, site_id@, reads_this, r as int, n as int));
    b.push_all(fallback);

    // Merge: join the two results and restore `this`.
    b.switch_to(merge_idx);
    let incoming = vec![(Operand::Reg(fast_value), fast_idx), (Operand::Reg(fallback_value), fallback_idx)];
    assert(incoming@.map_values(|p: (Operand, usize)| (p.0@, p.1)) =~= seq![
        (OperandV::Reg(fast_value), fast_idx),
        (OperandV::Reg(fallback_value), fallback_idx),
    ]);
    let phi = Inst::Phi { dest: merged, ty: Ty::Double, incoming };
    let merge = if reads_this {
        vec![phi, set_this_inst(r + 7, Operand::Reg(r + 1))]
    } else {
        vec![phi]
    };
    assert(insts_view(merge@) =~= guarded_merge(reads_this, r as int, n as int));
    b.push_all(merge);
    proof {
        assert(Seq::<InstV>::empty() + guarded_fast(vv, closure_fn@, reads_this, r as int, n as int) =~= guarded_fast(vv, closure_fn@, reads_this, r as int, n as int));
        assert(Seq::<InstV>::empty() + guarded_fallback(vv, site_id@, reads_this, r as int, n as int) =~= guarded_fallback(vv, site_id@, reads_this, r as int, n as int));
        assert(Seq::<InstV>::empty() + guarded_merge(reads_this, r as int, n as int) =~= guarded_merge(reads_this, r as int, n as int));
        assert(b@.blocks =~= post.blocks);
    }
    merged
}

/// The outcome of a call of the current async step's closure, from `pre`;
/// `None` when the callee is not that closure.
pub open spec fn current_step_call_result(pre: FnBuilderV, callee: Expr, recv: OperandV, vals: Seq<OperandV>) -> Option<
    Result<(FnBuilderV, OperandV), LowerError>,
> {
    if !(callee is CurrentStepClosure) {
        None
    } else if vals.len() > 16 {
        Some(Err(LowerError::CurrentStepArity { nargs: vals.len() as usize }))
    } else {
        let r = pre.next_reg;
        Some(
            Ok(
                (
                    (FnBuilderV { next_reg: r + 2, ..pre }).append_cur(
                        seq![
                            InstV::UnboxToI64 { dest: r as u64, val: recv },
                            InstV::Call {
                                dest: Some((r + 1) as u64),
                                ret: Ty::Double,
                                callee: closure_call_runtime_spec(vals.len()),
                                args: closure_args(OperandV::Reg(r as u64), vals),
                            },
                        ],
                    ),
                    OperandV::Reg((r + 1) as u64),
                ),
            ),
        )
    }
}

/// Lowers a call of the current async step's closure (read from
/// thread-local state): `recv_box` is the lowered callee; the closure is
/// called through `js_closure_call<N>`. More than sixteen arguments is an
/// error; any other callee gives `Ok(None)`; nothing is emitted in either
/// case.
pub fn try_lower_current_step_closure_call(
    b: &mut FnBuilder,
    callee: &Expr,
    recv_box: Operand,
    lowered_args: &Vec<Operand>,
) -> (res: Result<Option<Operand>, LowerError>)
    requires
        old(b)@.wf(),
        old(b)@.next_reg + 2 <= u64::MAX,
    ensures
        match current_step_call_result(old(b)@, *callee, recv_box@, operands_view(lowered_args@)) {
            None => res == Ok::<Option<Operand>, LowerError>(None) && final(b)@ == old(b)@,
            Some(Err(e)) => res == Err::<Option<Operand>, LowerError>(e) && final(b)@ == old(b)@,
            Some(Ok((post, result))) => res matches Ok(Some(o)) && o@ == result && final(b)@ == post,
        },
        final(b)@.wf(),
{
    match callee {
        Expr::CurrentStepClosure => {},
        _ => return Ok(None),
    }
    let nargs = lowered_args.len();
    if nargs > MAX_CLOSURE_ARGS {
        return Err(LowerError::CurrentStepArity { nargs });
    }
    let ghost vv = operands_view(lowered_args@);
    let ghost rv = recv_box@;
    let r = b.reserve_regs(2);
    let runtime = closure_call_runtime(nargs);
    let insts = vec![
        Inst::UnboxToI64 { dest: r, val: recv_box },
        Inst::Call { dest: Some(r + 1), ret: Ty::Double, callee: runtime, args: closure_call_args(Operand::Reg(r), lowered_args) },
    ];
    assert(insts_view(insts@) =~= seq![
        InstV::UnboxToI64 { dest: r, val: rv },
        InstV::Call {
            dest: Some((r + 1) as u64),
            ret: Ty::Double,
            callee: closure_call_runtime_spec(vv.len()),
            args: closure_args(OperandV::Reg(r), vv),
        },
    ]);
    b.push_all(insts);
    Ok(Some(Operand::Reg(r + 1)))
}

} // verus!
