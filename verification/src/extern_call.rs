//! Calls of imported names (`ExternFuncRef`): the built-in timers and
//! friends, runtime builtins, unresolved default imports, imported
//! closure-valued variables, and direct calls of another module's
//! `perry_fn_<source>__<name>` with padding and rest bundling.

use vstd::prelude::*;

use crate::call_args::{declared_or, extern_call_slots, extern_call_slots_spec, law_extern_call_arity};
use crate::closure_call::{
    closure_args, closure_call_args_pub, closure_call_runtime, closure_call_runtime_spec, LowerError, MAX_CLOSURE_ARGS,
};
use crate::method_dispatch::pool_byte_len;
use crate::hir::Expr;
use crate::ir::{
    args_view, copy_operand, insts_view, lemma_append_cur_twice, operands_view, Arg, DeclareV, FnBuilder, FnBuilderV,
    Inst, InstV, JsTag, Operand, OperandV, Ty,
};
use crate::marshal::{
    args_buffer_result, as_double_args, emit_args_buffer, emit_slots, lemma_slots_regs, slots_in_range, slots_result,
};
use crate::ffi::{lower_native_ffi_call, native_ffi_result, FfiFacts};
use crate::override_check::{intern_index, intern_strings};
use crate::text::str_eq;
use crate::ui_table::{effective_vals, lower_perry_ui_table_call, ui_args, ui_arity_ok, ui_call_state, ui_call_value, UiOutcome, UiSig};

verus! {

/// A built-in imported name this lowering handles by itself.
#[derive(Copy, Clone, Debug, PartialEq, Eq, Structural)]
pub enum ExternBuiltin {
    /// `setTimeout(cb, delay)`.
    SetTimeout,
    /// `setTimeout(cb, delay, ...args)` with at least one extra argument.
    SetTimeoutArgs,
    /// `setImmediate(cb)`.
    SetImmediate,
    /// `setImmediate(cb, ...args)` with at least one extra argument.
    SetImmediateArgs,
    /// `setInterval(cb, delay)`.
    SetInterval,
    /// `clearTimeout(id)`.
    ClearTimeout,
    /// `clearInterval(id)`.
    ClearInterval,
    /// `gc()`.
    Gc,
    /// `getAppVersion()`.
    AppVersion,
    /// `getAppBuildNumber()`.
    AppBuildNumber,
    /// `getBundleId()`.
    BundleId,
    /// `jsx(type, props)` / `jsxs(type, props)`; `multiple` for `jsxs`.
    Jsx { multiple: bool },
}

/// The built-in a call of `name` with `n` arguments is, if any.
pub open spec fn extern_builtin_spec(name: Seq<char>, n: nat) -> Option<ExternBuiltin> {
    if name == "setTimeout"@ && n == 2 {
        Some(ExternBuiltin::SetTimeout)
    } else if name == "setImmediate"@ && n == 1 {
        Some(ExternBuiltin::SetImmediate)
    } else if name == "setImmediate"@ && n > 1 {
        Some(ExternBuiltin::SetImmediateArgs)
    } else if name == "setTimeout"@ && n >= 3 {
        Some(ExternBuiltin::SetTimeoutArgs)
    } else if name == "setInterval"@ && n == 2 {
        Some(ExternBuiltin::SetInterval)
    } else if name == "clearTimeout"@ && n == 1 {
        Some(ExternBuiltin::ClearTimeout)
    } else if name == "clearInterval"@ && n == 1 {
        Some(ExternBuiltin::ClearInterval)
    } else if name == "gc"@ {
        Some(ExternBuiltin::Gc)
    } else if name == "getAppVersion"@ && n == 0 {
        Some(ExternBuiltin::AppVersion)
    } else if name == "getAppBuildNumber"@ && n == 0 {
        Some(ExternBuiltin::AppBuildNumber)
    } else if name == "getBundleId"@ && n == 0 {
        Some(ExternBuiltin::BundleId)
    } else if name == "jsx"@ {
        Some(ExternBuiltin::Jsx { multiple: false })
    } else if name == "jsxs"@ {
        Some(ExternBuiltin::Jsx { multiple: true })
    } else {
        None
    }
}

/// The JS name a built-in answers to.
pub open spec fn builtin_js_name(w: ExternBuiltin) -> Seq<char> {
    match w {
        ExternBuiltin::SetTimeout | ExternBuiltin::SetTimeoutArgs => "setTimeout"@,
        ExternBuiltin::SetImmediate | ExternBuiltin::SetImmediateArgs => "setImmediate"@,
        ExternBuiltin::SetInterval => "setInterval"@,
        ExternBuiltin::ClearTimeout => "clearTimeout"@,
        ExternBuiltin::ClearInterval => "clearInterval"@,
        ExternBuiltin::Gc => "gc"@,
        ExternBuiltin::AppVersion => "getAppVersion"@,
        ExternBuiltin::AppBuildNumber => "getAppBuildNumber"@,
        ExternBuiltin::BundleId => "getBundleId"@,
        ExternBuiltin::Jsx { multiple } => if multiple {
            "jsxs"@
        } else {
            "jsx"@
        },
    }
}

/// A call is classified as the built-in of its own name, with an argument
/// count that built-in takes: `setInterval(cb, ms)` is the interval timer,
/// never the one-shot `setTimeout`, and likewise for every other built-in.
pub proof fn law_extern_builtin_is_its_name(name: Seq<char>, n: nat)
    ensures
        extern_builtin_spec(name, n) matches Some(w) ==> builtin_js_name(w) == name && builtin_arity_ok(w, n),
{
}

/// The runtime function a two-argument timer registration of built-in `w`
/// calls, from `pre`.
pub open spec fn timer_callee(pre: FnBuilderV, w: ExternBuiltin, vals: Seq<OperandV>) -> Seq<char> {
    let post = extern_builtin_result(pre, w, vals)->0;
    let insts = post.0.cur_insts();
    insts[insts.len() - 2]->Call_callee
}

/// `setInterval(cb, ms)` and `setTimeout(cb, ms)` register through
/// different runtime functions: the repeating timer is never lowered as
/// the one-shot one.
pub proof fn law_interval_is_not_timeout(pre: FnBuilderV, vals: Seq<OperandV>)
    requires
        pre.wf(),
        vals.len() == 2,
    ensures
        timer_callee(pre, ExternBuiltin::SetInterval, vals) == "setInterval"@,
        timer_callee(pre, ExternBuiltin::SetTimeout, vals) != timer_callee(pre, ExternBuiltin::SetInterval, vals),
{
    reveal_strlit("setInterval");
    reveal_strlit("js_set_timeout_callback");
    let r = pre.next_reg;
    let a = timer_insts("setInterval"@, vals[0], seq![(Ty::Double, vals[1])], r);
    let b = timer_insts("js_set_timeout_callback"@, vals[0], seq![(Ty::Double, vals[1])], r);
    let pa = (FnBuilderV { next_reg: r + 3, ..pre }).append_cur(a);
    let pb = (FnBuilderV { next_reg: r + 3, ..pre }).append_cur(b);
    assert(pa.cur_insts() == pre.cur_insts() + a);
    assert(pb.cur_insts() == pre.cur_insts() + b);
    assert(pa.cur_insts()[pa.cur_insts().len() - 2] == a[1]);
    assert(pb.cur_insts()[pb.cur_insts().len() - 2] == b[1]);
    assert("setInterval"@[0] != "js_set_timeout_callback"@[0]);
}

/// The built-in a call of `name` with `n` arguments is, if any.
pub fn extern_builtin(name: &str, n: usize) -> (res: Option<ExternBuiltin>)
    ensures
        res == extern_builtin_spec(name@, n as nat),
{
    if str_eq(name, "setTimeout") && n == 2 {
        Some(ExternBuiltin::SetTimeout)
    } else if str_eq(name, "setImmediate") && n == 1 {
        Some(ExternBuiltin::SetImmediate)
    } else if str_eq(name, "setImmediate") && n > 1 {
        Some(ExternBuiltin::SetImmediateArgs)
    } else if str_eq(name, "setTimeout") && n >= 3 {
        Some(ExternBuiltin::SetTimeoutArgs)
    } else if str_eq(name, "setInterval") && n == 2 {
        Some(ExternBuiltin::SetInterval)
    } else if str_eq(name, "clearTimeout") && n == 1 {
        Some(ExternBuiltin::ClearTimeout)
    } else if str_eq(name, "clearInterval") && n == 1 {
        Some(ExternBuiltin::ClearInterval)
    } else if str_eq(name, "gc") {
        Some(ExternBuiltin::Gc)
    } else if str_eq(name, "getAppVersion") && n == 0 {
        Some(ExternBuiltin::AppVersion)
    } else if str_eq(name, "getAppBuildNumber") && n == 0 {
        Some(ExternBuiltin::AppBuildNumber)
    } else if str_eq(name, "getBundleId") && n == 0 {
        Some(ExternBuiltin::BundleId)
    } else if str_eq(name, "jsx") {
        Some(ExternBuiltin::Jsx { multiple: false })
    } else if str_eq(name, "jsxs") {
        Some(ExternBuiltin::Jsx { multiple: true })
    } else {
        None
    }
}

/// What the compiler knows of an imported name at a call site.
#[derive(Copy, Clone, Debug)]
pub struct ExternNameFacts {
    /// The name is a named import from a recognised Node submodule.
    pub node_submodule: bool,
    /// The name is in the `perry/system`, `perry/updater` or
    /// `perry/background` dispatch tables.
    pub perry_table: bool,
    /// The native-library manifest declares the name.
    pub in_ffi_manifest: bool,
    /// The name was imported from a compiled module (whose symbol prefix is
    /// known).
    pub has_source_prefix: bool,
    /// That module runs on the V8 fallback.
    pub v8_fallback: bool,
    /// The imported binding is a variable holding a closure.
    pub imported_var: bool,
}

/// Which lowering a call of an imported name takes, in the order they are
/// tried.
#[derive(Copy, Clone, Debug, PartialEq, Eq, Structural)]
pub enum ExternCallPath {
    Builtin(ExternBuiltin),
    NodeSubmodule,
    PerryTable,
    /// A `js_*` runtime function not declared by a native library: called
    /// with every argument as a `double`.
    RuntimeBuiltin,
    /// A default import of a module that did not resolve: arguments
    /// evaluated, then the runtime's diagnostic stub.
    UnresolvedDefault,
    /// A native-library function, called with the platform C ABI.
    NativeFfi,
    /// An export of a module running on the V8 fallback.
    V8Bridge,
    /// An imported closure-valued variable: its getter, then a closure call.
    ImportedVar,
    /// The other module's `perry_fn_<source>__<name>`.
    CrossModule,
}

/// Which lowering a call of the imported `name` with `n` arguments takes.
pub open spec fn extern_call_path_spec(name: Seq<char>, n: nat, facts: ExternNameFacts) -> ExternCallPath {
    if extern_builtin_spec(name, n) is Some {
        ExternCallPath::Builtin(extern_builtin_spec(name, n)->0)
    } else if facts.node_submodule {
        ExternCallPath::NodeSubmodule
    } else if facts.perry_table {
        ExternCallPath::PerryTable
    } else if name.len() >= 3 && name.take(3) == "js_"@ && !facts.in_ffi_manifest {
        ExternCallPath::RuntimeBuiltin
    } else if name == "default"@ && !facts.has_source_prefix {
        ExternCallPath::UnresolvedDefault
    } else if facts.in_ffi_manifest || !facts.has_source_prefix {
        ExternCallPath::NativeFfi
    } else if facts.v8_fallback {
        ExternCallPath::V8Bridge
    } else if facts.imported_var {
        ExternCallPath::ImportedVar
    } else {
        ExternCallPath::CrossModule
    }
}

/// Whether `s` starts with `js_`.
fn starts_with_js(s: &str) -> (res: bool)
    ensures
        res == (s@.len() >= 3 && s@.take(3) == "js_"@),
{
    proof {
        reveal_strlit("js_");
    }
    let n = s.unicode_len();
    if n < 3 {
        return false;
    }
    let c0 = s.get_char(0);
    let c1 = s.get_char(1);
    let c2 = s.get_char(2);
    let res = c0 == 'j' && c1 == 's' && c2 == '_';
    assert(res ==> s@.take(3) =~= "js_"@);
    assert(s@.take(3) == "js_"@ ==> s@.take(3)[0] == 'j' && s@.take(3)[1] == 's' && s@.take(3)[2] == '_');
    res
}

/// Which lowering a call of the imported `name` with `n` arguments takes.
pub fn extern_call_path(name: &str, n: usize, facts: &ExternNameFacts) -> (res: ExternCallPath)
    ensures
        res == extern_call_path_spec(name@, n as nat, *facts),
{
    if let Some(b) = extern_builtin(name, n) {
        return ExternCallPath::Builtin(b);
    }
    if facts.node_submodule {
        return ExternCallPath::NodeSubmodule;
    }
    if facts.perry_table {
        return ExternCallPath::PerryTable;
    }
    if starts_with_js(name) && !facts.in_ffi_manifest {
        return ExternCallPath::RuntimeBuiltin;
    }
    if str_eq(name, "default") && !facts.has_source_prefix {
        return ExternCallPath::UnresolvedDefault;
    }
    if facts.in_ffi_manifest || !facts.has_source_prefix {
        return ExternCallPath::NativeFfi;
    }
    if facts.v8_fallback {
        return ExternCallPath::V8Bridge;
    }
    if facts.imported_var {
        return ExternCallPath::ImportedVar;
    }
    ExternCallPath::CrossModule
}

/// A pointer-returning timer registration from register `r`: the callback
/// unboxed into `r`, the call into `r + 1` and its NaN-boxing into `r + 2`;
/// `tail` are the call's arguments after the callback handle.
pub open spec fn timer_insts(
    runtime: Seq<char>,
    cb: OperandV,
    tail: Seq<(Ty, OperandV)>,
    r: int,
) -> Seq<InstV> {
    seq![
        InstV::UnboxToI64 { dest: r as u64, val: cb },
        InstV::Call {
            dest: Some((r + 1) as u64),
            ret: Ty::I64,
            callee: runtime,
            args: seq![(Ty::I64, OperandV::Reg(r as u64))] + tail,
        },
        InstV::NanboxPointer { dest: (r + 2) as u64, val: OperandV::Reg((r + 1) as u64) },
    ]
}

/// The function state and result of a built-in call, from `pre`; `None`
/// for the built-ins lowered elsewhere (the app metadata ones and the
/// `perry/tui` JSX intrinsics rewrite, which precedes the `jsx` call).
pub open spec fn extern_builtin_result(pre: FnBuilderV, which: ExternBuiltin, vals: Seq<OperandV>) -> Option<
    (FnBuilderV, OperandV),
> {
    let r = pre.next_reg;
    let undef = OperandV::Tag(JsTag::Undefined);
    match which {
        ExternBuiltin::SetTimeout => Some(
            (
                (FnBuilderV { next_reg: r + 3, ..pre }).append_cur(
                    timer_insts("js_set_timeout_callback"@, vals[0], seq![(Ty::Double, vals[1])], r),
                ),
                OperandV::Reg((r + 2) as u64),
            ),
        ),
        ExternBuiltin::SetInterval => Some(
            (
                (FnBuilderV { next_reg: r + 3, ..pre }).append_cur(
                    timer_insts("setInterval"@, vals[0], seq![(Ty::Double, vals[1])], r),
                ),
                OperandV::Reg((r + 2) as u64),
            ),
        ),
        ExternBuiltin::SetImmediate => Some(
            (
                (FnBuilderV { next_reg: r + 3, ..pre }).append_cur(
                    timer_insts("js_set_immediate_callback"@, vals[0], seq![], r),
                ),
                OperandV::Reg((r + 2) as u64),
            ),
        ),
        ExternBuiltin::SetImmediateArgs => {
            let (buffered, ptr) = args_buffer_result(pre, vals.skip(1));
            let q = buffered.next_reg;
            Some(
                (
                    (FnBuilderV { next_reg: q + 3, ..buffered }).append_cur(
                        timer_insts(
                            "js_set_immediate_callback_args"@,
                            vals[0],
                            seq![(Ty::Ptr, ptr), (Ty::I32, OperandV::Int((vals.len() - 1) as u64))],
                            q,
                        ),
                    ),
                    OperandV::Reg((q + 2) as u64),
                ),
            )
        },
        ExternBuiltin::SetTimeoutArgs => {
            let (buffered, ptr) = args_buffer_result(pre, vals.skip(2));
            let q = buffered.next_reg;
            Some(
                (
                    (FnBuilderV { next_reg: q + 3, ..buffered }).append_cur(
                        timer_insts(
                            "js_set_timeout_callback_args"@,
                            vals[0],
                            seq![(Ty::Double, vals[1]), (Ty::Ptr, ptr), (Ty::I32, OperandV::Int((vals.len() - 2) as u64))],
                            q,
                        ),
                    ),
                    OperandV::Reg((q + 2) as u64),
                ),
            )
        },
        ExternBuiltin::ClearTimeout => Some(
            (
                (FnBuilderV { next_reg: r + 1, ..pre }).append_cur(
                    seq![
                        InstV::UnboxToI64 { dest: r as u64, val: vals[0] },
                        InstV::Call {
                            dest: None,
                            ret: Ty::Void,
                            callee: "clearTimeout"@,
                            args: seq![(Ty::I64, OperandV::Reg(r as u64))],
                        },
                    ],
                ),
                undef,
            ),
        ),
        ExternBuiltin::ClearInterval => Some(
            (
                (FnBuilderV { next_reg: r + 1, ..pre }).append_cur(
                    seq![
                        InstV::UnboxToI64 { dest: r as u64, val: vals[0] },
                        InstV::Call {
                            dest: None,
                            ret: Ty::Void,
                            callee: "clearInterval"@,
                            args: seq![(Ty::I64, OperandV::Reg(r as u64))],
                        },
                    ],
                ),
                undef,
            ),
        ),
        ExternBuiltin::Gc => Some(
            (
                pre.append_cur(seq![InstV::Call { dest: None, ret: Ty::Void, callee: "js_gc_collect"@, args: seq![] }]),
                undef,
            ),
        ),
        ExternBuiltin::Jsx { multiple } => Some(
            (
                (FnBuilderV { next_reg: r + 1, ..pre }).append_cur(
                    seq![
                        InstV::Call {
                            dest: Some(r as u64),
                            ret: Ty::Double,
                            callee: if multiple { "js_jsxs"@ } else { "js_jsx"@ },
                            args: vals.map_values(|v: OperandV| (Ty::Double, v)),
                        },
                    ],
                ),
                OperandV::Reg(r as u64),
            ),
        ),
        _ => None,
    }
}

/// Whether `n` arguments fit the built-in `which` (as `extern_builtin`
/// only answers it for such counts).
pub open spec fn builtin_arity_ok(which: ExternBuiltin, n: nat) -> bool {
    match which {
        ExternBuiltin::SetTimeout => n == 2,
        ExternBuiltin::SetInterval => n == 2,
        ExternBuiltin::SetImmediate => n == 1,
        ExternBuiltin::SetImmediateArgs => n > 1,
        ExternBuiltin::SetTimeoutArgs => n >= 3,
        ExternBuiltin::ClearTimeout => n == 1,
        ExternBuiltin::ClearInterval => n == 1,
        _ => true,
    }
}

/// `vals[from..]`, copied.
fn tail_from(vals: &Vec<Operand>, from: usize) -> (res: Vec<Operand>)
    requires
        from <= vals@.len(),
    ensures
        operands_view(res@) == operands_view(vals@).skip(from as int),
{
    let mut out: Vec<Operand> = Vec::new();
    let mut i = from;
    while i < vals.len()
        invariant
            from <= i <= vals@.len(),
            operands_view(out@) =~= operands_view(vals@).subrange(from as int, i as int),
        decreases vals@.len() - i,
    {
        let ghost prev = out@;
        out.push(copy_operand(&vals[i]));
        proof {
            assert(operands_view(out@) =~= operands_view(prev).push(operands_view(vals@)[i as int]));
            assert(operands_view(vals@).subrange(from as int, i + 1) =~= operands_view(vals@).subrange(
                from as int,
                i as int,
            ).push(operands_view(vals@)[i as int]));
        }
        i = i + 1;
    }
    out
}

/// Emits a timer registration (see `timer_insts`) and returns the boxed
/// register.
fn emit_timer(b: &mut FnBuilder, runtime: &str, cb: Operand, tail: Vec<Arg>) -> (res: u64)
    requires
        old(b)@.wf(),
        old(b)@.next_reg + 3 <= u64::MAX,
    ensures
        res == old(b)@.next_reg + 2,
        final(b)@ == (FnBuilderV { next_reg: old(b)@.next_reg + 3, ..old(b)@ }).append_cur(
            timer_insts(runtime@, cb@, args_view(tail@), old(b)@.next_reg),
        ),
        final(b)@.wf(),
{
    let ghost cv = cb@;
    let ghost tv = args_view(tail@);
    let r = b.reserve_regs(3);
    let mut args: Vec<Arg> = vec![(Ty::I64, Operand::Reg(r))];
    let mut tail = tail;
    args.append(&mut tail);
    assert(args_view(args@) =~= seq![(Ty::I64, OperandV::Reg(r))] + tv);
    let insts = vec![
        Inst::UnboxToI64 { dest: r, val: cb },
        Inst::Call { dest: Some(r + 1), ret: Ty::I64, callee: String::from_str(runtime), args },
        Inst::NanboxPointer { dest: r + 2, val: Operand::Reg(r + 1) },
    ];
    assert(insts_view(insts@) =~= timer_insts(runtime@, cv, tv, r as int));
    b.push_all(insts);
    r + 2
}

/// Emits a built-in call per `which` with the lowered arguments; `None`,
/// with nothing emitted, for the built-ins lowered elsewhere.
pub fn lower_extern_builtin(b: &mut FnBuilder, which: ExternBuiltin, lowered_args: &Vec<Operand>) -> (res: Option<
    Operand,
>)
    requires
        old(b)@.wf(),
        builtin_arity_ok(which, lowered_args@.len()),
        old(b)@.next_reg + lowered_args@.len() + 6 <= u64::MAX,
    ensures
        match extern_builtin_result(old(b)@, which, operands_view(lowered_args@)) {
            None => res is None && final(b)@ == old(b)@,
            Some((post, result)) => res matches Some(o) && o@ == result && final(b)@ == post,
        },
        final(b)@.wf(),
{
    let ghost pre = b@;
    let ghost vv = operands_view(lowered_args@);
    match which {
        ExternBuiltin::SetTimeout => {
            let t = vec![(Ty::Double, copy_operand(&lowered_args[1]))];
            assert(args_view(t@) =~= seq![(Ty::Double, vv[1])]);
            let r = emit_timer(b, "js_set_timeout_callback", copy_operand(&lowered_args[0]), t);
            Some(Operand::Reg(r))
        },
        ExternBuiltin::SetInterval => {
            let t = vec![(Ty::Double, copy_operand(&lowered_args[1]))];
            assert(args_view(t@) =~= seq![(Ty::Double, vv[1])]);
            let r = emit_timer(b, "setInterval", copy_operand(&lowered_args[0]), t);
            Some(Operand::Reg(r))
        },
        ExternBuiltin::SetImmediate => {
            let t: Vec<Arg> = Vec::new();
            assert(args_view(t@) =~= Seq::<(Ty, OperandV)>::empty());
            let r = emit_timer(b, "js_set_immediate_callback", copy_operand(&lowered_args[0]), t);
            Some(Operand::Reg(r))
        },
        ExternBuiltin::SetImmediateArgs => {
            let extra = tail_from(lowered_args, 1);
            let p = emit_args_buffer(b, &extra);
            let ghost pv = p@;
            let t = vec![(Ty::Ptr, p), (Ty::I32, Operand::Int((lowered_args.len() - 1) as u64))];
            assert(args_view(t@) =~= seq![(Ty::Ptr, pv), (Ty::I32, OperandV::Int((vv.len() - 1) as u64))]);
            let r = emit_timer(b, "js_set_immediate_callback_args", copy_operand(&lowered_args[0]), t);
            Some(Operand::Reg(r))
        },
        ExternBuiltin::SetTimeoutArgs => {
            let extra = tail_from(lowered_args, 2);
            let p = emit_args_buffer(b, &extra);
            let ghost pv = p@;
            let t = vec![
                (Ty::Double, copy_operand(&lowered_args[1])),
                (Ty::Ptr, p),
                (Ty::I32, Operand::Int((lowered_args.len() - 2) as u64)),
            ];
            assert(args_view(t@) =~= seq![(Ty::Double, vv[1]), (Ty::Ptr, pv), (Ty::I32, OperandV::Int((vv.len() - 2) as u64))]);
            let r = emit_timer(b, "js_set_timeout_callback_args", copy_operand(&lowered_args[0]), t);
            Some(Operand::Reg(r))
        },
        ExternBuiltin::ClearTimeout | ExternBuiltin::ClearInterval => {
            let name = if which == ExternBuiltin::ClearTimeout { "clearTimeout" } else { "clearInterval" };
            let r = b.reserve_regs(1);
            let a = vec![(Ty::I64, Operand::Reg(r))];
            assert(args_view(a@) =~= seq![(Ty::I64, OperandV::Reg(r))]);
            let insts = vec![
                Inst::UnboxToI64 { dest: r, val: copy_operand(&lowered_args[0]) },
                Inst::Call { dest: None, ret: Ty::Void, callee: String::from_str(name), args: a },
            ];
            let ghost nm = if which == ExternBuiltin::ClearTimeout { "clearTimeout"@ } else { "clearInterval"@ };
            assert(insts_view(insts@) =~= seq![
                InstV::UnboxToI64 { dest: r, val: vv[0] },
                InstV::Call { dest: None, ret: Ty::Void, callee: nm, args: seq![(Ty::I64, OperandV::Reg(r))] },
            ]);
            b.push_all(insts);
            Some(Operand::Tag(JsTag::Undefined))
        },
        ExternBuiltin::Gc => {
            let a: Vec<Arg> = Vec::new();
            assert(args_view(a@) =~= Seq::<(Ty, OperandV)>::empty());
            b.call_void("js_gc_collect", a);
            Some(Operand::Tag(JsTag::Undefined))
        },
        ExternBuiltin::Jsx { multiple } => {
            let args = as_double_args(crate::extern_call::tail_from(lowered_args, 0));
            assert(vv.skip(0) =~= vv);
            let r = b.call(Ty::Double, if multiple { "js_jsxs" } else { "js_jsx" }, args);
            Some(Operand::Reg(r))
        },
        _ => None,
    }
}

/// The symbol of another module's function: `perry_fn_<prefix>__<suffix>`.
pub open spec fn cross_module_symbol(prefix: Seq<char>, suffix: Seq<char>) -> Seq<char> {
    "perry_fn_"@ + prefix + "__"@ + suffix
}

/// The symbol of another module's function.
pub fn cross_module_symbol_exec(prefix: &str, suffix: &str) -> (res: String)
    ensures
        res@ == cross_module_symbol(prefix@, suffix@),
{
    let mut s = String::from_str("perry_fn_");
    s.append(prefix);
    s.append("__");
    s.append(suffix);
    s
}

/// The function state and result of a call of another module's `fname`
/// with the lowered arguments `vals`, from `pre`: the argument slots laid
/// out (padding, rest array), the function declared with one `double`
/// parameter per slot, and the call.
pub open spec fn cross_module_call_result(
    pre: FnBuilderV,
    fname: Seq<char>,
    declared: Option<usize>,
    has_rest: bool,
    vals: Seq<OperandV>,
) -> (FnBuilderV, OperandV) {
    let slots = extern_call_slots_spec(declared, has_rest, vals.len());
    let (si, ops, next) = slots_result(slots, vals, pre.next_reg);
    let decl = DeclareV { name: fname, ret: Ty::Double, params: Seq::new(slots.len(), |i: int| Ty::Double) };
    (
        (FnBuilderV { next_reg: next + 1, declares: pre.declares.push(decl), ..pre }).append_cur(
            si.push(
                InstV::Call {
                    dest: Some(next as u64),
                    ret: Ty::Double,
                    callee: fname,
                    args: ops.map_values(|o: OperandV| (Ty::Double, o)),
                },
            ),
        ),
        OperandV::Reg(next as u64),
    )
}

/// `n` `double` parameter types.
fn doubles(n: usize) -> (res: Vec<Ty>)
    ensures
        res@ == Seq::new(n as nat, |i: int| Ty::Double),
{
    let mut v: Vec<Ty> = Vec::new();
    let mut i: usize = 0;
    while i < n
        invariant
            i <= n,
            v@ =~= Seq::new(i as nat, |k: int| Ty::Double),
        decreases n - i,
    {
        v.push(Ty::Double);
        i = i + 1;
    }
    v
}

/// Lowers a call of another module's function `perry_fn_<source_prefix>__
/// <origin_suffix>` (`origin_suffix` being the name the origin module
/// exports it under) with the lowered arguments: missing trailing
/// arguments padded with `undefined`, and with a rest parameter the
/// trailing arguments bundled into one array; the function declared with
/// exactly the parameters it is called with. `declared` is the callee's
/// parameter count when known.
pub fn lower_cross_module_call(
    b: &mut FnBuilder,
    source_prefix: &str,
    origin_suffix: &str,
    declared: Option<usize>,
    has_rest: bool,
    lowered: &Vec<Operand>,
) -> (res: Operand)
    requires
        old(b)@.wf(),
        lowered@.len() <= u32::MAX,
        old(b)@.next_reg + (declared_or(declared, lowered@.len()) + lowered@.len() + 1) * (lowered@.len() + 3) + 2
            <= u64::MAX,
    ensures
        ({
            let (post, result) = cross_module_call_result(
                old(b)@,
                cross_module_symbol(source_prefix@, origin_suffix@),
                declared,
                has_rest,
                operands_view(lowered@),
            );
            &&& final(b)@ == post
            &&& res@ == result
        }),
        final(b)@.wf(),
{
    let ghost pre = b@;
    let ghost vv = operands_view(lowered@);
    let fname = cross_module_symbol_exec(source_prefix, origin_suffix);
    let slots = extern_call_slots(declared, has_rest, lowered.len());
    proof {
        law_extern_call_arity(declared, has_rest, lowered@.len() as nat);
        let d = declared_or(declared, lowered@.len() as nat);
        let m = d + lowered@.len() + 1;
        assert(slots@.len() <= m);
        assert(slots@.len() * (lowered@.len() + 3) <= m * (lowered@.len() + 3)) by (nonlinear_arith)
            requires
                slots@.len() <= m,
        ;
        assert(slots_in_range(slots@, lowered@.len() as nat));
    }
    b.declare(fname.as_str(), Ty::Double, doubles(slots.len()));
    let ghost s1 = b@;
    let ops = emit_slots(b, &slots, lowered);
    proof {
        lemma_slots_regs(slots@, vv, s1.next_reg);
    }
    let ghost (si, opv, next) = slots_result(slots@, vv, pre.next_reg);
    let args = as_double_args(ops);
    let r = b.call(Ty::Double, fname.as_str(), args);
    proof {
        let st = FnBuilderV { next_reg: next + 1, declares: s1.declares, ..pre };
        let c = InstV::Call {
            dest: Some(next as u64),
            ret: Ty::Double,
            callee: fname@,
            args: opv.map_values(|o: OperandV| (Ty::Double, o)),
        };
        lemma_append_cur_twice(st, si, seq![c]);
        assert(si + seq![c] =~= si.push(c));
    }
    Operand::Reg(r)
}

/// A call of another module's function declares it with exactly as many
/// `double` parameters as the call passes arguments, under the name it
/// calls.
pub proof fn law_cross_module_declares_what_it_calls(
    pre: FnBuilderV,
    fname: Seq<char>,
    declared: Option<usize>,
    has_rest: bool,
    vals: Seq<OperandV>,
)
    requires
        pre.wf(),
    ensures
        ({
            let (post, _) = cross_module_call_result(pre, fname, declared, has_rest, vals);
            let decl = post.declares.last();
            let call = post.cur_insts().last();
            &&& decl.name == fname
            &&& call->Call_callee == fname
            &&& decl.params.len() == call->Call_args.len()
            &&& forall|i: int| 0 <= i < decl.params.len() ==> decl.params[i] == call->Call_args[i].0
        }),
{
    let slots = extern_call_slots_spec(declared, has_rest, vals.len());
    lemma_slots_regs(slots, vals, pre.next_reg);
}

/// The function state and result of calling an imported closure-valued
/// variable through its getter `fname`, from `pre`: the getter declared
/// and called, then the closure called through `js_closure_call<N>`.
pub open spec fn imported_var_call_result(pre: FnBuilderV, fname: Seq<char>, vals: Seq<OperandV>) -> (FnBuilderV, OperandV) {
    let r = pre.next_reg;
    (
        (FnBuilderV {
            next_reg: r + 3,
            declares: pre.declares.push(DeclareV { name: fname, ret: Ty::Double, params: seq![] }),
            ..pre
        }).append_cur(
            seq![
                InstV::Call { dest: Some(r as u64), ret: Ty::Double, callee: fname, args: seq![] },
                InstV::UnboxToI64 { dest: (r + 1) as u64, val: OperandV::Reg(r as u64) },
                InstV::Call {
                    dest: Some((r + 2) as u64),
                    ret: Ty::Double,
                    callee: closure_call_runtime_spec(vals.len()),
                    args: closure_args(OperandV::Reg((r + 1) as u64), vals),
                },
            ],
        ),
        OperandV::Reg((r + 2) as u64),
    )
}

/// Lowers a call of an imported variable holding a closure: the
/// `perry_fn_<source_prefix>__<origin_suffix>` getter yields the closure,
/// which is called through `js_closure_call<N>`. More than sixteen
/// arguments is an error, with nothing emitted.
pub fn lower_imported_var_call(
    b: &mut FnBuilder,
    source_prefix: &str,
    origin_suffix: &str,
    lowered: &Vec<Operand>,
) -> (res: Result<Operand, LowerError>)
    requires
        old(b)@.wf(),
        old(b)@.next_reg + 3 <= u64::MAX,
    ensures
        lowered@.len() > 16 ==> res == Err::<Operand, LowerError>(LowerError::ClosureArity { nargs: lowered@.len() as usize })
            && final(b)@ == old(b)@,
        lowered@.len() <= 16 ==> ({
            let (post, result) = imported_var_call_result(
                old(b)@,
                cross_module_symbol(source_prefix@, origin_suffix@),
                operands_view(lowered@),
            );
            res matches Ok(o) && o@ == result && final(b)@ == post
        }),
        final(b)@.wf(),
{
    let n = lowered.len();
    if n > 16 {
        return Err(LowerError::ClosureArity { nargs: n });
    }
    let ghost vv = operands_view(lowered@);
    let fname = cross_module_symbol_exec(source_prefix, origin_suffix);
    let no_params: Vec<Ty> = Vec::new();
    assert(no_params@ =~= Seq::<Ty>::empty());
    b.declare(fname.as_str(), Ty::Double, no_params);
    let r = b.reserve_regs(3);
    let no_args: Vec<Arg> = Vec::new();
    assert(args_view(no_args@) =~= Seq::<(Ty, OperandV)>::empty());
    let insts = vec![
        Inst::Call { dest: Some(r), ret: Ty::Double, callee: fname, args: no_args },
        Inst::UnboxToI64 { dest: r + 1, val: Operand::Reg(r) },
        Inst::Call {
            dest: Some(r + 2),
            ret: Ty::Double,
            callee: closure_call_runtime(n),
            args: closure_call_args_pub(Operand::Reg(r + 1), lowered),
        },
    ];
    assert(insts_view(insts@) =~= seq![
        InstV::Call {
            dest: Some(r),
            ret: Ty::Double,
            callee: cross_module_symbol(source_prefix@, origin_suffix@),
            args: seq![],
        },
        InstV::UnboxToI64 { dest: (r + 1) as u64, val: OperandV::Reg(r) },
        InstV::Call {
            dest: Some((r + 2) as u64),
            ret: Ty::Double,
            callee: closure_call_runtime_spec(n as nat),
            args: closure_args(OperandV::Reg((r + 1) as u64), vv),
        },
    ]);
    b.push_all(insts);
    Ok(Operand::Reg(r + 2))
}

/// Lowers a call of a `js_*` runtime function by name with every argument
/// as a `double`, or (`name` being `"default"` of an unresolved module)
/// the runtime's diagnostic stub `js_unresolved_default_call()`.
pub fn lower_runtime_extern_call(b: &mut FnBuilder, path: ExternCallPath, name: &str, lowered: &Vec<Operand>) -> (res:
    Option<Operand>)
    requires
        old(b)@.wf(),
        old(b)@.next_reg < u64::MAX,
    ensures
        path == ExternCallPath::RuntimeBuiltin ==> (res matches Some(o) && o@ == OperandV::Reg(
            old(b)@.next_reg as u64,
        ) && final(b)@ == (FnBuilderV { next_reg: old(b)@.next_reg + 1, ..old(b)@ }).append_cur(
            seq![
                InstV::Call {
                    dest: Some(old(b)@.next_reg as u64),
                    ret: Ty::Double,
                    callee: name@,
                    args: operands_view(lowered@).map_values(|o: OperandV| (Ty::Double, o)),
                },
            ],
        )),
        path == ExternCallPath::UnresolvedDefault ==> (res matches Some(o) && o@ == OperandV::Reg(
            old(b)@.next_reg as u64,
        ) && final(b)@ == (FnBuilderV { next_reg: old(b)@.next_reg + 1, ..old(b)@ }).append_cur(
            seq![
                InstV::Call {
                    dest: Some(old(b)@.next_reg as u64),
                    ret: Ty::Double,
                    callee: "js_unresolved_default_call"@,
                    args: seq![],
                },
            ],
        )),
        path != ExternCallPath::RuntimeBuiltin && path != ExternCallPath::UnresolvedDefault ==> res is None
            && final(b)@ == old(b)@,
        final(b)@.wf(),
{
    match path {
        ExternCallPath::RuntimeBuiltin => {
            let args = as_double_args(tail_from(lowered, 0));
            assert(operands_view(lowered@).skip(0) =~= operands_view(lowered@));
            Some(Operand::Reg(b.call(Ty::Double, name, args)))
        },
        ExternCallPath::UnresolvedDefault => {
            let a: Vec<Arg> = Vec::new();
            assert(args_view(a@) =~= Seq::<(Ty, OperandV)>::empty());
            Some(Operand::Reg(b.call(Ty::Double, "js_unresolved_default_call", a)))
        },
        _ => None,
    }
}

/// How the imported name of a call links: the symbol prefix of its source
/// module, the name the origin module exports it under, and the callee's
/// parameter count (when known) and rest parameter.
#[derive(Clone, Debug)]
pub struct ExternLink {
    pub source_prefix: String,
    pub origin_suffix: String,
    pub declared: Option<usize>,
    pub has_rest: bool,
    /// For a named import from a Node submodule: the submodule's key and
    /// the exported name.
    pub node_submodule: Option<(String, String)>,
    /// For a name in the `perry/system`, `perry/updater` or
    /// `perry/background` dispatch tables: its row.
    pub perry_table: Option<UiSig>,
}

/// The app's metadata the metadata built-ins answer with.
#[derive(Clone, Debug)]
pub struct AppMetadata {
    pub version: String,
    pub build_number: u64,
    pub bundle_id: String,
}

/// The state and value after loading the interned string `s`: the string
/// interned, and its boxed handle loaded into the next register.
pub open spec fn string_load_result(pre: FnBuilderV, s: Seq<char>) -> (FnBuilderV, OperandV) {
    let r = pre.next_reg;
    (
        (FnBuilderV { next_reg: r + 1, strings: intern_strings(pre.strings, s), ..pre }).append_cur(
            seq![InstV::Load { dest: r as u64, ty: Ty::Double, ptr: OperandV::StrHandle(intern_index(pre.strings, s) as usize) }],
        ),
        OperandV::Reg(r as u64),
    )
}

/// What an app metadata built-in yields: the version and bundle id as
/// interned strings, the build number as a number literal. `None` for the
/// other built-ins.
pub open spec fn app_metadata_result(pre: FnBuilderV, which: ExternBuiltin, m: AppMetadata) -> Option<(FnBuilderV, OperandV)> {
    match which {
        ExternBuiltin::AppVersion => Some(string_load_result(pre, m.version@)),
        ExternBuiltin::BundleId => Some(string_load_result(pre, m.bundle_id@)),
        ExternBuiltin::AppBuildNumber => Some((pre, OperandV::Num(m.build_number))),
        _ => None,
    }
}

fn load_interned_string(b: &mut FnBuilder, s: &str) -> (res: Operand)
    requires
        old(b)@.wf(),
        old(b)@.next_reg < u64::MAX,
    ensures
        ({
            let (post, v) = string_load_result(old(b)@, s@);
            &&& final(b)@ == post
            &&& res@ == v
        }),
        final(b)@.wf(),
{
    let ghost pre = b@;
    let idx = b.intern(s);
    assert(b@ == (FnBuilderV { strings: intern_strings(pre.strings, s@), ..pre }));
    let r = b.fresh_reg();
    b.push(Inst::Load { dest: r, ty: Ty::Double, ptr: Operand::StrHandle(idx) });
    Operand::Reg(r)
}

/// Lowers an app metadata built-in (see `app_metadata_result`); `None`,
/// with nothing emitted, for the others.
pub fn lower_app_metadata(b: &mut FnBuilder, which: ExternBuiltin, m: &AppMetadata) -> (res: Option<Operand>)
    requires
        old(b)@.wf(),
        old(b)@.next_reg < u64::MAX,
    ensures
        match app_metadata_result(old(b)@, which, *m) {
            Some((post, v)) => final(b)@ == post && (res matches Some(o) && o@ == v),
            None => final(b)@ == old(b)@ && res is None,
        },
        final(b)@.wf(),
{
    match which {
        ExternBuiltin::AppVersion => Some(load_interned_string(b, m.version.as_str())),
        ExternBuiltin::BundleId => Some(load_interned_string(b, m.bundle_id.as_str())),
        ExternBuiltin::AppBuildNumber => Some(Operand::Num(m.build_number)),
        _ => None,
    }
}

/// Interns `first`, then `second`; their indices in the pool.
fn intern_pair(b: &mut FnBuilder, first: &str, second: &str) -> (res: (usize, usize))
    ensures
        ({
            let s1 = intern_strings(old(b)@.strings, first@);
            &&& final(b)@ == (FnBuilderV { strings: intern_strings(s1, second@), ..old(b)@ })
            &&& res.0 == intern_index(old(b)@.strings, first@)
            &&& res.1 == intern_index(s1, second@)
        }),
{
    let ghost pre = b@;
    let i1 = b.intern(first);
    assert(b@ == (FnBuilderV { strings: intern_strings(pre.strings, first@), ..pre }));
    let ghost mid = b@;
    let i2 = b.intern(second);
    assert(b@ == (FnBuilderV { strings: intern_strings(mid.strings, second@), ..mid }));
    (i1, i2)
}

/// `vals[..m]`, copied.
fn head_of(vals: &Vec<Operand>, m: usize) -> (res: Vec<Operand>)
    requires
        m <= vals@.len(),
    ensures
        operands_view(res@) == operands_view(vals@).take(m as int),
{
    let mut out: Vec<Operand> = Vec::new();
    let mut k: usize = 0;
    while k < m
        invariant
            k <= m <= vals@.len(),
            operands_view(out@) =~= operands_view(vals@).take(k as int),
        decreases m - k,
    {
        let ghost prev = out@;
        out.push(copy_operand(&vals[k]));
        proof {
            assert(operands_view(out@) =~= operands_view(prev).push(operands_view(vals@)[k as int]));
            assert(operands_view(vals@).take(k + 1) =~= operands_view(vals@).take(k as int).push(
                operands_view(vals@)[k as int],
            ));
        }
        k = k + 1;
    }
    out
}

/// The function state and value after calling the named export `export`
/// of Node submodule `key` with the lowered arguments `vals`, from `pre`:
/// both names interned (their bytes passed with their byte lengths) to
/// `js_node_submodule_export_as_function`, declared, which yields the
/// export as a closure; the closure unboxed and called with the first
/// sixteen arguments through `js_closure_call<N>`, declared.
pub open spec fn node_submodule_call_result(pre: FnBuilderV, key: Seq<char>, export: Seq<char>, vals: Seq<OperandV>) -> (
    FnBuilderV,
    OperandV,
) {
    let r = pre.next_reg;
    let s1 = intern_strings(pre.strings, key);
    let m = if vals.len() <= 16 {
        vals.len()
    } else {
        16
    };
    let passed = vals.take(m as int);
    (
        (FnBuilderV {
            next_reg: r + 3,
            strings: intern_strings(s1, export),
            declares: pre.declares.push(
                DeclareV {
                    name: "js_node_submodule_export_as_function"@,
                    ret: Ty::Double,
                    params: seq![Ty::Ptr, Ty::I32, Ty::Ptr, Ty::I32],
                },
            ).push(
                DeclareV {
                    name: closure_call_runtime_spec(m),
                    ret: Ty::Double,
                    params: seq![Ty::I64] + Seq::new(m, |k: int| Ty::Double),
                },
            ),
            ..pre
        }).append_cur(
            seq![
                InstV::Call {
                    dest: Some(r as u64),
                    ret: Ty::Double,
                    callee: "js_node_submodule_export_as_function"@,
                    args: seq![
                        (Ty::Ptr, OperandV::StrBytes(intern_index(pre.strings, key) as usize)),
                        (Ty::I32, OperandV::Int(pool_byte_len(key))),
                        (Ty::Ptr, OperandV::StrBytes(intern_index(s1, export) as usize)),
                        (Ty::I32, OperandV::Int(pool_byte_len(export))),
                    ],
                },
                InstV::UnboxToI64 { dest: (r + 1) as u64, val: OperandV::Reg(r as u64) },
                InstV::Call {
                    dest: Some((r + 2) as u64),
                    ret: Ty::Double,
                    callee: closure_call_runtime_spec(m),
                    args: closure_args(OperandV::Reg((r + 1) as u64), passed),
                },
            ],
        ),
        OperandV::Reg((r + 2) as u64),
    )
}

/// Calls the named export `export` of Node submodule `key` (see
/// `node_submodule_call_result`).
pub fn lower_node_submodule_call(b: &mut FnBuilder, key: &str, export: &str, lowered: &Vec<Operand>) -> (res: Operand)
    requires
        old(b)@.wf(),
        old(b)@.next_reg + 3 <= u64::MAX,
    ensures
        ({
            let (post, v) = node_submodule_call_result(old(b)@, key@, export@, operands_view(lowered@));
            &&& final(b)@ == post
            &&& res@ == v
        }),
        final(b)@.wf(),
{
    let ghost pre = b@;
    let (i1, i2) = intern_pair(b, key, export);
    let mut p1 = Vec::new();
    p1.push(Ty::Ptr);
    p1.push(Ty::I32);
    p1.push(Ty::Ptr);
    p1.push(Ty::I32);
    assert(p1@ =~= seq![Ty::Ptr, Ty::I32, Ty::Ptr, Ty::I32]);
    b.declare("js_node_submodule_export_as_function", Ty::Double, p1);
    let m: usize = if lowered.len() <= MAX_CLOSURE_ARGS {
        lowered.len()
    } else {
        MAX_CLOSURE_ARGS
    };
    let passed = head_of(lowered, m);
    let mut p2: Vec<Ty> = Vec::new();
    p2.push(Ty::I64);
    let mut rest = doubles(m);
    p2.append(&mut rest);
    assert(p2@ =~= seq![Ty::I64] + Seq::new(m as nat, |j: int| Ty::Double));
    let runtime = closure_call_runtime(m);
    let ghost rt = runtime@;
    b.declare(runtime.as_str(), Ty::Double, p2);
    let r = b.reserve_regs(3);
    let a1 = vec![
        (Ty::Ptr, Operand::StrBytes(i1)),
        (Ty::I32, Operand::Int(crate::method_dispatch::byte_len(key))),
        (Ty::Ptr, Operand::StrBytes(i2)),
        (Ty::I32, Operand::Int(crate::method_dispatch::byte_len(export))),
    ];
    let a2 = closure_call_args_pub(Operand::Reg(r + 1), &passed);
    let ghost a1v = args_view(a1@);
    let ghost a2v = args_view(a2@);
    let ghost vals = operands_view(lowered@);
    assert(a1v =~= seq![
        (Ty::Ptr, OperandV::StrBytes(intern_index(pre.strings, key@) as usize)),
        (Ty::I32, OperandV::Int(pool_byte_len(key@))),
        (Ty::Ptr, OperandV::StrBytes(intern_index(intern_strings(pre.strings, key@), export@) as usize)),
        (Ty::I32, OperandV::Int(pool_byte_len(export@))),
    ]);
    assert(m as nat == if vals.len() <= 16 { vals.len() } else { 16 });
    assert(a2v == closure_args(OperandV::Reg((r + 1) as u64), vals.take(m as int)));
    assert(r == pre.next_reg);
    let insts = vec![
        Inst::Call { dest: Some(r), ret: Ty::Double, callee: String::from_str("js_node_submodule_export_as_function"), args: a1 },
        Inst::UnboxToI64 { dest: r + 1, val: Operand::Reg(r) },
        Inst::Call { dest: Some(r + 2), ret: Ty::Double, callee: runtime, args: a2 },
    ];
    assert(insts_view(insts@) =~= seq![
        InstV::Call { dest: Some(r), ret: Ty::Double, callee: "js_node_submodule_export_as_function"@, args: a1v },
        InstV::UnboxToI64 { dest: (r + 1) as u64, val: OperandV::Reg(r) },
        InstV::Call { dest: Some((r + 2) as u64), ret: Ty::Double, callee: rt, args: a2v },
    ]);
    b.push_all(insts);
    Operand::Reg(r + 2)
}

/// The outcome of lowering a call of an imported name.
#[derive(Debug)]
pub enum ExternOutcome {
    /// The call was lowered; its value.
    Lowered(Operand),
    /// A dispatch-table widget constructor called with a trailing inline
    /// style: the widget's raw handle, to be styled and then boxed
    /// (`finish_styled_widget`).
    StyledWidget { handle: u64 },
    /// The call takes a lowering outside this library's emitters.
    Elsewhere(ExternCallPath),
}

/// Lowers a call whose callee is an imported name (`ExternFuncRef`), per
/// `extern_call_path`: the built-in timers, `gc`, `jsx` and app metadata
/// calls, named imports of Node submodules (when `link` names the
/// submodule and export), `js_*` runtime functions, unresolved default
/// imports, native-library functions (through the C ABI, per `ffi`),
/// imported closure-valued variables and other modules' functions are
/// emitted here, and so are the `perry/system`, `perry/updater` and
/// `perry/background` table functions when `link` gives their row (per
/// `lower_perry_ui_table_call`); V8-fallback exports, and the two kinds
/// above without their link, are answered as `Elsewhere`, with nothing
/// emitted. `lowered`
/// are the lowered arguments, `link` how the name links, `meta` the app's
/// metadata and `ffi` what is known of a native call's arguments and
/// result. `Ok(None)` for any other callee.
pub fn try_lower_extern_func_call(
    b: &mut FnBuilder,
    callee: &Expr,
    facts: &ExternNameFacts,
    link: &ExternLink,
    meta: &AppMetadata,
    ffi: &FfiFacts,
    lowered: &Vec<Operand>,
) -> (res: Result<Option<ExternOutcome>, LowerError>)
    requires
        old(b)@.wf(),
        lowered@.len() <= u32::MAX,
        ffi.arg_is_string@.len() == lowered@.len(),
        ffi.arg_is_array@.len() == lowered@.len(),
        old(b)@.next_reg + (declared_or(link.declared, lowered@.len()) + lowered@.len() + 1) * (lowered@.len() + 3) + 6
            <= u64::MAX,
        link.perry_table matches Some(s) ==> old(b)@.next_reg + s@.args.len() + 2 <= u64::MAX,
    ensures
        final(b)@.wf(),
        match *callee {
            Expr::ExternFuncRef { name } => {
                let vals = operands_view(lowered@);
                let path = extern_call_path_spec(name@, vals.len(), *facts);
                let fname = cross_module_symbol(link.source_prefix@, link.origin_suffix@);
                match path {
                    ExternCallPath::Builtin(w) => match extern_builtin_result(old(b)@, w, vals) {
                        Some((post, r)) => (res matches Ok(Some(ExternOutcome::Lowered(o))) && o@ == r) && final(b)@
                            == post,
                        None => match app_metadata_result(old(b)@, w, *meta) {
                            Some((post, r)) => (res matches Ok(Some(ExternOutcome::Lowered(o))) && o@ == r)
                                && final(b)@ == post,
                            None => (res matches Ok(Some(ExternOutcome::Elsewhere(p))) && p == path) && final(b)@
                                == old(b)@,
                        },
                    },
                    ExternCallPath::NodeSubmodule => match link.node_submodule {
                        Some((k, e)) => {
                            let (post, r) = node_submodule_call_result(old(b)@, k@, e@, vals);
                            (res matches Ok(Some(ExternOutcome::Lowered(o))) && o@ == r) && final(b)@ == post
                        },
                        None => (res matches Ok(Some(ExternOutcome::Elsewhere(p))) && p == path) && final(b)@
                            == old(b)@,
                    },
                    ExternCallPath::PerryTable => match link.perry_table {
                        Some(s) => if !ui_arity_ok(s@, vals) {
                            (res matches Ok(Some(ExternOutcome::Lowered(o))) && o@ == OperandV::Zero) && final(b)@
                                == old(b)@
                        } else {
                            &&& final(b)@ == ui_call_state(old(b)@, s@, vals)
                            &&& match ui_call_value(old(b)@, s@, vals) {
                                Some(v) => res matches Ok(Some(ExternOutcome::Lowered(o))) && o@ == v,
                                None => res matches Ok(Some(ExternOutcome::StyledWidget { handle })) && handle == ui_args(
                                    s@.args,
                                    effective_vals(s@, vals),
                                    old(b)@.next_reg,
                                ).2 as u64,
                            }
                        },
                        None => (res matches Ok(Some(ExternOutcome::Elsewhere(p))) && p == path) && final(b)@
                            == old(b)@,
                    },
                    ExternCallPath::NativeFfi => {
                        let (post, r) = native_ffi_result(old(b)@, name@, *ffi, vals);
                        (res matches Ok(Some(ExternOutcome::Lowered(o))) && o@ == r) && final(b)@ == post
                    },
                    ExternCallPath::RuntimeBuiltin => (res matches Ok(Some(ExternOutcome::Lowered(o))) && o@
                        == OperandV::Reg(old(b)@.next_reg as u64)) && final(b)@ == (FnBuilderV {
                        next_reg: old(b)@.next_reg + 1,
                        ..old(b)@
                    }).append_cur(
                        seq![
                            InstV::Call {
                                dest: Some(old(b)@.next_reg as u64),
                                ret: Ty::Double,
                                callee: name@,
                                args: vals.map_values(|o: OperandV| (Ty::Double, o)),
                            },
                        ],
                    ),
                    ExternCallPath::UnresolvedDefault => (res matches Ok(Some(ExternOutcome::Lowered(o))) && o@
                        == OperandV::Reg(old(b)@.next_reg as u64)) && final(b)@ == (FnBuilderV {
                        next_reg: old(b)@.next_reg + 1,
                        ..old(b)@
                    }).append_cur(
                        seq![
                            InstV::Call {
                                dest: Some(old(b)@.next_reg as u64),
                                ret: Ty::Double,
                                callee: "js_unresolved_default_call"@,
                                args: seq![],
                            },
                        ],
                    ),
                    ExternCallPath::ImportedVar => if vals.len() > 16 {
                        res == Err::<Option<ExternOutcome>, LowerError>(
                            LowerError::ClosureArity { nargs: vals.len() as usize },
                        ) && final(b)@ == old(b)@
                    } else {
                        let (post, r) = imported_var_call_result(old(b)@, fname, vals);
                        (res matches Ok(Some(ExternOutcome::Lowered(o))) && o@ == r) && final(b)@ == post
                    },
                    ExternCallPath::CrossModule => {
                        let (post, r) = cross_module_call_result(old(b)@, fname, link.declared, link.has_rest, vals);
                        (res matches Ok(Some(ExternOutcome::Lowered(o))) && o@ == r) && final(b)@ == post
                    },
                    _ => (res matches Ok(Some(ExternOutcome::Elsewhere(p))) && p == path) && final(b)@ == old(b)@,
                }
            },
            _ => (res matches Ok(None)) && final(b)@ == old(b)@,
        },
{
    let name = match callee {
        Expr::ExternFuncRef { name } => name.as_str(),
        _ => return Ok(None),
    };
    let path = extern_call_path(name, lowered.len(), facts);
    proof {
        let d = declared_or(link.declared, lowered@.len() as nat);
        let n = lowered@.len() as nat;
        assert(n <= (d + n + 1) * (n + 3)) by (nonlinear_arith);
    }
    match path {
        ExternCallPath::Builtin(w) => match lower_extern_builtin(b, w, lowered) {
            Some(o) => Ok(Some(ExternOutcome::Lowered(o))),
            None => match lower_app_metadata(b, w, meta) {
                Some(o) => Ok(Some(ExternOutcome::Lowered(o))),
                None => Ok(Some(ExternOutcome::Elsewhere(path))),
            },
        },
        ExternCallPath::NodeSubmodule => match &link.node_submodule {
            Some((k, e)) => {
                proof {
                    let n = lowered@.len() as nat;
                    let d = declared_or(link.declared, n);
                    assert(3 <= (d + n + 1) * (n + 3)) by (nonlinear_arith);
                }
                Ok(Some(ExternOutcome::Lowered(lower_node_submodule_call(b, k.as_str(), e.as_str(), lowered))))
            },
            None => Ok(Some(ExternOutcome::Elsewhere(path))),
        },
        ExternCallPath::PerryTable => match &link.perry_table {
            Some(s) => match lower_perry_ui_table_call(b, s, lowered) {
                UiOutcome::Value(o) => Ok(Some(ExternOutcome::Lowered(o))),
                UiOutcome::StyledWidget { handle } => Ok(Some(ExternOutcome::StyledWidget { handle })),
            },
            None => Ok(Some(ExternOutcome::Elsewhere(path))),
        },
        ExternCallPath::NativeFfi => {
            proof {
                let n = lowered@.len() as nat;
                let d = declared_or(link.declared, n);
                assert(3 * n + 3 <= (d + n + 1) * (n + 3)) by (nonlinear_arith);
            }
            Ok(Some(ExternOutcome::Lowered(lower_native_ffi_call(b, name, ffi, lowered))))
        },
        ExternCallPath::RuntimeBuiltin | ExternCallPath::UnresolvedDefault => match lower_runtime_extern_call(
            b,
            path,
            name,
            lowered,
        ) {
            Some(o) => Ok(Some(ExternOutcome::Lowered(o))),
            None => Ok(Some(ExternOutcome::Elsewhere(path))),
        },
        ExternCallPath::ImportedVar => {
            match lower_imported_var_call(b, link.source_prefix.as_str(), link.origin_suffix.as_str(), lowered) {
                Ok(o) => Ok(Some(ExternOutcome::Lowered(o))),
                Err(e) => Err(e),
            }
        },
        ExternCallPath::CrossModule => {
            let o = lower_cross_module_call(
                b,
                link.source_prefix.as_str(),
                link.origin_suffix.as_str(),
                link.declared,
                link.has_rest,
                lowered,
            );
            Ok(Some(ExternOutcome::Lowered(o)))
        },
        _ => Ok(Some(ExternOutcome::Elsewhere(path))),
    }
}

} // verus!
