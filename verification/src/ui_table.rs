//! Calls described by a dispatch-table row (`perry/ui`, `perry/system`,
//! `perry/plugin`, ...): each argument coerced per its declared kind, the
//! runtime function declared and called, and its result boxed per the
//! row's return kind. The `perry/plugin` rows are this module's own.

use vstd::prelude::*;

use crate::ir::{args_view, insts_view, operands_view, DeclareV, FnBuilder, FnBuilderV, Inst, InstV, Operand, OperandV, Ty};
use crate::text::str_eq;

verus! {

/// How a table row's argument is passed.
#[derive(Copy, Clone, Debug, PartialEq, Eq, Structural)]
pub enum UiArgKind {
    /// A widget handle: the NaN-boxed pointer unboxed to `i64`.
    Widget,
    /// A string: its raw `i64` string pointer.
    Str,
    /// A number or any JS value, as the `double` it is.
    F64,
    /// A closure, as the NaN-boxed `double` it is.
    Closure,
    /// A number the runtime takes as `i64` (`fptosi`).
    I64Raw,
}

/// How a table row's result is returned.
#[derive(Copy, Clone, Debug, PartialEq, Eq, Structural)]
pub enum UiReturnKind {
    /// An `i64` widget handle, NaN-boxed as a pointer.
    Widget,
    /// A `double`, as it is.
    F64,
    /// Nothing; the call's value is `0.0`.
    Void,
    /// An `i64` string pointer, NaN-boxed as a string.
    Str,
    /// An `i64` number, converted to `double`.
    I64AsF64,
}

/// A dispatch-table row: the TS name, the runtime function, the argument
/// kinds and the return kind.
#[derive(Clone, Debug)]
pub struct UiSig {
    pub method: &'static str,
    pub runtime: &'static str,
    pub args: Vec<UiArgKind>,
    pub ret: UiReturnKind,
}

/// A row, as a value.
pub struct UiSigV {
    pub method: Seq<char>,
    pub runtime: Seq<char>,
    pub args: Seq<UiArgKind>,
    pub ret: UiReturnKind,
}

impl View for UiSig {
    type V = UiSigV;

    open spec fn view(&self) -> UiSigV {
        UiSigV { method: self.method@, runtime: self.runtime@, args: self.args@, ret: self.ret }
    }
}

/// Shorthand for a row view.
pub open spec fn ui_row(method: Seq<char>, runtime: Seq<char>, args: Seq<UiArgKind>, ret: UiReturnKind) -> Option<UiSigV> {
    Some(UiSigV { method, runtime, args, ret })
}

/// The `perry/plugin` host functions: the row of `m`, if any.
pub open spec fn plugin_row_spec(m: Seq<char>) -> Option<UiSigV> {
    let f = UiArgKind::F64;
    if m == "loadPlugin"@ {
        ui_row(m, "perry_plugin_load"@, seq![f], UiReturnKind::Widget)
    } else if m == "unloadPlugin"@ {
        ui_row(m, "perry_plugin_unload"@, seq![UiArgKind::Widget], UiReturnKind::Void)
    } else if m == "emitHook"@ {
        ui_row(m, "perry_plugin_emit_hook"@, seq![f, f], UiReturnKind::F64)
    } else if m == "emitEvent"@ {
        ui_row(m, "perry_plugin_emit_event"@, seq![f, f], UiReturnKind::F64)
    } else if m == "invokeTool"@ {
        ui_row(m, "perry_plugin_invoke_tool"@, seq![f, f], UiReturnKind::F64)
    } else if m == "setPluginConfig"@ {
        ui_row(m, "perry_plugin_set_config"@, seq![f, f], UiReturnKind::F64)
    } else if m == "discoverPlugins"@ {
        ui_row(m, "perry_plugin_discover"@, seq![f], UiReturnKind::F64)
    } else if m == "listPlugins"@ {
        ui_row(m, "perry_plugin_list_plugins"@, seq![], UiReturnKind::F64)
    } else if m == "listHooks"@ {
        ui_row(m, "perry_plugin_list_hooks"@, seq![], UiReturnKind::F64)
    } else if m == "listTools"@ {
        ui_row(m, "perry_plugin_list_tools"@, seq![], UiReturnKind::F64)
    } else if m == "pluginCount"@ {
        ui_row(m, "perry_plugin_count"@, seq![], UiReturnKind::I64AsF64)
    } else if m == "initPlugins"@ {
        ui_row(m, "perry_plugin_init"@, seq![], UiReturnKind::Void)
    } else {
        None
    }
}

/// The methods of a `PluginApi` handle (the handle itself is prepended by
/// the caller): the row of `m`, if any.
pub open spec fn plugin_instance_row_spec(m: Seq<char>) -> Option<UiSigV> {
    let f = UiArgKind::F64;
    let c = UiArgKind::Closure;
    let i = UiArgKind::I64Raw;
    let r = UiReturnKind::F64;
    if m == "registerHook"@ {
        ui_row(m, "perry_plugin_register_hook"@, seq![f, c], r)
    } else if m == "registerHookEx"@ {
        ui_row(m, "perry_plugin_register_hook_ex"@, seq![f, c, i, i], r)
    } else if m == "registerTool"@ {
        ui_row(m, "perry_plugin_register_tool"@, seq![f, f, c], r)
    } else if m == "registerService"@ {
        ui_row(m, "perry_plugin_register_service"@, seq![f, c, c], r)
    } else if m == "registerRoute"@ {
        ui_row(m, "perry_plugin_register_route"@, seq![f, c], r)
    } else if m == "getConfig"@ {
        ui_row(m, "perry_plugin_get_config"@, seq![f], r)
    } else if m == "log"@ {
        ui_row(m, "perry_plugin_log"@, seq![i, f], r)
    } else if m == "setMetadata"@ {
        ui_row(m, "perry_plugin_set_metadata"@, seq![f, f, f], r)
    } else if m == "on"@ {
        ui_row(m, "perry_plugin_on"@, seq![f, c], r)
    } else if m == "emit"@ {
        ui_row(m, "perry_plugin_emit"@, seq![f, f], r)
    } else {
        None
    }
}

fn kinds0() -> (v: Vec<UiArgKind>)
    ensures
        v@ == Seq::<UiArgKind>::empty(),
{
    Vec::new()
}

fn kinds1(a: UiArgKind) -> (v: Vec<UiArgKind>)
    ensures
        v@ == seq![a],
{
    let mut v = Vec::new();
    v.push(a);
    assert(v@ =~= seq![a]);
    v
}

fn kinds2(a: UiArgKind, b: UiArgKind) -> (v: Vec<UiArgKind>)
    ensures
        v@ == seq![a, b],
{
    let mut v = kinds1(a);
    v.push(b);
    assert(v@ =~= seq![a, b]);
    v
}

fn kinds3(a: UiArgKind, b: UiArgKind, c: UiArgKind) -> (v: Vec<UiArgKind>)
    ensures
        v@ == seq![a, b, c],
{
    let mut v = kinds2(a, b);
    v.push(c);
    assert(v@ =~= seq![a, b, c]);
    v
}

fn kinds4(a: UiArgKind, b: UiArgKind, c: UiArgKind, d: UiArgKind) -> (v: Vec<UiArgKind>)
    ensures
        v@ == seq![a, b, c, d],
{
    let mut v = kinds3(a, b, c);
    v.push(d);
    assert(v@ =~= seq![a, b, c, d]);
    v
}

fn mk(method: &'static str, runtime: &'static str, args: Vec<UiArgKind>, ret: UiReturnKind) -> (res: Option<UiSig>)
    ensures
        res matches Some(s) && s@ == (UiSigV { method: method@, runtime: runtime@, args: args@, ret }),
{
    Some(UiSig { method, runtime, args, ret })
}

/// The `perry/plugin` host function `method`'s row, if any.
pub fn perry_plugin_table_lookup(method: &str) -> (res: Option<UiSig>)
    ensures
        match (res, plugin_row_spec(method@)) {
            (Some(s), Some(v)) => s@ == v,
            (None, None) => true,
            _ => false,
        },
{
    let f = UiArgKind::F64;
    let m = method;
    if str_eq(m, "loadPlugin") {
        mk("loadPlugin", "perry_plugin_load", kinds1(f), UiReturnKind::Widget)
    } else if str_eq(m, "unloadPlugin") {
        mk("unloadPlugin", "perry_plugin_unload", kinds1(UiArgKind::Widget), UiReturnKind::Void)
    } else if str_eq(m, "emitHook") {
        mk("emitHook", "perry_plugin_emit_hook", kinds2(f, f), UiReturnKind::F64)
    } else if str_eq(m, "emitEvent") {
        mk("emitEvent", "perry_plugin_emit_event", kinds2(f, f), UiReturnKind::F64)
    } else if str_eq(m, "invokeTool") {
        mk("invokeTool", "perry_plugin_invoke_tool", kinds2(f, f), UiReturnKind::F64)
    } else if str_eq(m, "setPluginConfig") {
        mk("setPluginConfig", "perry_plugin_set_config", kinds2(f, f), UiReturnKind::F64)
    } else if str_eq(m, "discoverPlugins") {
        mk("discoverPlugins", "perry_plugin_discover", kinds1(f), UiReturnKind::F64)
    } else if str_eq(m, "listPlugins") {
        mk("listPlugins", "perry_plugin_list_plugins", kinds0(), UiReturnKind::F64)
    } else if str_eq(m, "listHooks") {
        mk("listHooks", "perry_plugin_list_hooks", kinds0(), UiReturnKind::F64)
    } else if str_eq(m, "listTools") {
        mk("listTools", "perry_plugin_list_tools", kinds0(), UiReturnKind::F64)
    } else if str_eq(m, "pluginCount") {
        mk("pluginCount", "perry_plugin_count", kinds0(), UiReturnKind::I64AsF64)
    } else if str_eq(m, "initPlugins") {
        mk("initPlugins", "perry_plugin_init", kinds0(), UiReturnKind::Void)
    } else {
        None
    }
}

/// The `PluginApi` method `method`'s row, if any.
pub fn perry_plugin_instance_method_lookup(method: &str) -> (res: Option<UiSig>)
    ensures
        match (res, plugin_instance_row_spec(method@)) {
            (Some(s), Some(v)) => s@ == v,
            (None, None) => true,
            _ => false,
        },
{
    let f = UiArgKind::F64;
    let c = UiArgKind::Closure;
    let i = UiArgKind::I64Raw;
    let r = UiReturnKind::F64;
    let m = method;
    if str_eq(m, "registerHook") {
        mk("registerHook", "perry_plugin_register_hook", kinds2(f, c), r)
    } else if str_eq(m, "registerHookEx") {
        mk("registerHookEx", "perry_plugin_register_hook_ex", kinds4(f, c, i, i), r)
    } else if str_eq(m, "registerTool") {
        mk("registerTool", "perry_plugin_register_tool", kinds3(f, f, c), r)
    } else if str_eq(m, "registerService") {
        mk("registerService", "perry_plugin_register_service", kinds3(f, c, c), r)
    } else if str_eq(m, "registerRoute") {
        mk("registerRoute", "perry_plugin_register_route", kinds2(f, c), r)
    } else if str_eq(m, "getConfig") {
        mk("getConfig", "perry_plugin_get_config", kinds1(f), r)
    } else if str_eq(m, "log") {
        mk("log", "perry_plugin_log", kinds2(i, f), r)
    } else if str_eq(m, "setMetadata") {
        mk("setMetadata", "perry_plugin_set_metadata", kinds3(f, f, f), r)
    } else if str_eq(m, "on") {
        mk("on", "perry_plugin_on", kinds2(f, c), r)
    } else if str_eq(m, "emit") {
        mk("emit", "perry_plugin_emit", kinds2(f, f), r)
    } else {
        None
    }
}

/// The instructions, typed argument and next register of one argument
/// of kind `kind` with value `v`, from register `q`.
pub open spec fn ui_arg(kind: UiArgKind, v: OperandV, q: int) -> (Seq<InstV>, (Ty, OperandV), int) {
    match kind {
        UiArgKind::Widget => (seq![InstV::UnboxToI64 { dest: q as u64, val: v }], (Ty::I64, OperandV::Reg(q as u64)), q + 1),
        UiArgKind::Str => (
            seq![
                InstV::Call {
                    dest: Some(q as u64),
                    ret: Ty::I64,
                    callee: "js_get_string_pointer_unified"@,
                    args: seq![(Ty::Double, v)],
                },
            ],
            (Ty::I64, OperandV::Reg(q as u64)),
            q + 1,
        ),
        UiArgKind::F64 | UiArgKind::Closure => (Seq::empty(), (Ty::Double, v), q),
        UiArgKind::I64Raw => (
            seq![InstV::Fptosi { dest: q as u64, to: Ty::I64, val: v }],
            (Ty::I64, OperandV::Reg(q as u64)),
            q + 1,
        ),
    }
}

/// The instructions, typed arguments and next register of the arguments
/// of kinds `kinds` with values `vals`, from register `r`.
pub open spec fn ui_args(kinds: Seq<UiArgKind>, vals: Seq<OperandV>, r: int) -> (Seq<InstV>, Seq<(Ty, OperandV)>, int)
    decreases kinds.len(),
{
    if kinds.len() == 0 {
        (Seq::empty(), Seq::empty(), r)
    } else {
        let (pi, pa, q) = ui_args(kinds.drop_last(), vals, r);
        let (i, a, q2) = ui_arg(kinds.last(), vals[kinds.len() - 1], q);
        (pi + i, pa.push(a), q2)
    }
}

proof fn lemma_ui_args_regs(kinds: Seq<UiArgKind>, vals: Seq<OperandV>, r: int)
    ensures
        r <= ui_args(kinds, vals, r).2 <= r + kinds.len(),
        ui_args(kinds, vals, r).1.len() == kinds.len(),
    decreases kinds.len(),
{
    if kinds.len() > 0 {
        lemma_ui_args_regs(kinds.drop_last(), vals, r);
    }
}

/// The LLVM return type of a return kind.
pub open spec fn ui_ret_ty(ret: UiReturnKind) -> Ty {
    match ret {
        UiReturnKind::Widget | UiReturnKind::I64AsF64 | UiReturnKind::Str => Ty::I64,
        UiReturnKind::F64 => Ty::Double,
        UiReturnKind::Void => Ty::Void,
    }
}

/// The arguments a row's call is made with: the lowered ones, but for
/// the two-argument form of `appSetTimer`, whose missing leading app
/// handle is a `0`.
pub open spec fn effective_vals(sig: UiSigV, vals: Seq<OperandV>) -> Seq<OperandV> {
    if sig.method == "appSetTimer"@ && vals.len() == 2 && sig.args.len() == 3 {
        seq![OperandV::Zero] + vals
    } else {
        vals
    }
}

/// Whether the call carries a trailing inline style argument: one
/// argument more than the row declares, on a widget constructor.
pub open spec fn has_style_arg(sig: UiSigV, vals: Seq<OperandV>) -> bool {
    effective_vals(sig, vals).len() == sig.args.len() + 1 && sig.ret == UiReturnKind::Widget
}

/// The outcome of a table call.
#[derive(Debug)]
pub enum UiOutcome {
    /// The call's value.
    Value(Operand),
    /// A widget was created (its raw handle in this register) and a
    /// trailing inline style is to be applied to it before it is boxed
    /// (`finish_styled_widget`).
    StyledWidget { handle: u64 },
}

/// The function state after a table call with matching arity, from `pre`:
/// the argument instructions, the runtime declared with the argument
/// types, and the call with the instructions that box its result.
pub open spec fn ui_call_state(pre: FnBuilderV, sig: UiSigV, vals: Seq<OperandV>) -> FnBuilderV {
    let eff = effective_vals(sig, vals);
    let (ai, args, q) = ui_args(sig.args, eff, pre.next_reg);
    let rt = ui_ret_ty(sig.ret);
    let declares = pre.declares.push(
        DeclareV { name: sig.runtime, ret: rt, params: args.map_values(|a: (Ty, OperandV)| a.0) },
    );
    let call = InstV::Call {
        dest: if sig.ret == UiReturnKind::Void { None } else { Some(q as u64) },
        ret: rt,
        callee: sig.runtime,
        args,
    };
    let tail = match sig.ret {
        UiReturnKind::Widget => if has_style_arg(sig, vals) {
            Seq::empty()
        } else {
            seq![InstV::NanboxPointer { dest: (q + 1) as u64, val: OperandV::Reg(q as u64) }]
        },
        UiReturnKind::Str => seq![InstV::NanboxString { dest: (q + 1) as u64, val: OperandV::Reg(q as u64) }],
        UiReturnKind::I64AsF64 => seq![InstV::Sitofp { dest: (q + 1) as u64, from: Ty::I64, val: OperandV::Reg(q as u64) }],
        _ => Seq::empty(),
    };
    let used = if sig.ret == UiReturnKind::Void { 0int } else if tail.len() == 0 { 1int } else { 2int };
    (FnBuilderV { next_reg: q + used, declares, ..pre }).append_cur(ai + seq![call] + tail)
}

/// Whether the call's arity matches the row (the style argument aside).
pub open spec fn ui_arity_ok(sig: UiSigV, vals: Seq<OperandV>) -> bool {
    effective_vals(sig, vals).len() == sig.args.len() || has_style_arg(sig, vals)
}

/// The value a table call with matching arity returns, from `pre`.
pub open spec fn ui_call_value(pre: FnBuilderV, sig: UiSigV, vals: Seq<OperandV>) -> Option<OperandV> {
    let q = ui_args(sig.args, effective_vals(sig, vals), pre.next_reg).2;
    match sig.ret {
        UiReturnKind::Widget => if has_style_arg(sig, vals) {
            None
        } else {
            Some(OperandV::Reg((q + 1) as u64))
        },
        UiReturnKind::F64 => Some(OperandV::Reg(q as u64)),
        UiReturnKind::Void => Some(OperandV::Zero),
        UiReturnKind::Str | UiReturnKind::I64AsF64 => Some(OperandV::Reg((q + 1) as u64)),
    }
}

fn build_ui_args(kinds: &Vec<UiArgKind>, vals: &Vec<Operand>, r: u64) -> (res: (Vec<Inst>, Vec<(Ty, Operand)>, u64))
    requires
        r + kinds@.len() <= u64::MAX,
        kinds@.len() <= vals@.len(),
    ensures
        ({
            let (ai, args, q) = ui_args(kinds@, operands_view(vals@), r as int);
            &&& insts_view(res.0@) == ai
            &&& args_view(res.1@) == args
            &&& res.2 == q
        }),
{
    let ghost vv = operands_view(vals@);
    let mut insts: Vec<Inst> = Vec::new();
    let mut args: Vec<(Ty, Operand)> = Vec::new();
    let mut q = r;
    let mut k: usize = 0;
    while k < kinds.len()
        invariant
            k <= kinds@.len(),
            kinds@.len() <= vals@.len(),
            r + kinds@.len() <= u64::MAX,
            vv == operands_view(vals@),
            ({
                let (ai, aa, qq) = ui_args(kinds@.take(k as int), vv, r as int);
                &&& insts_view(insts@) == ai
                &&& args_view(args@) == aa
                &&& q == qq
            }),
            q <= r + k,
        decreases kinds@.len() - k,
    {
        let ghost t = kinds@.take(k + 1);
        assert(t.drop_last() =~= kinds@.take(k as int));
        assert(t.last() == kinds@[k as int]);
        let ghost pi = insts@;
        let ghost pa = args@;
        let v = crate::ir::copy_operand(&vals[k]);
        let ghost v_view = v@;
        assert(v_view == vv[k as int]);
        match kinds[k] {
            UiArgKind::Widget => {
                insts.push(Inst::UnboxToI64 { dest: q, val: v });
                args.push((Ty::I64, Operand::Reg(q)));
                assert(insts_view(insts@) =~= insts_view(pi) + seq![InstV::UnboxToI64 { dest: q, val: v_view }]);
                assert(args_view(args@) =~= args_view(pa).push((Ty::I64, OperandV::Reg(q))));
                q = q + 1;
            },
            UiArgKind::Str => {
                let a = vec![(Ty::Double, v)];
                assert(args_view(a@) =~= seq![(Ty::Double, v_view)]);
                insts.push(
                    Inst::Call {
                        dest: Some(q),
                        ret: Ty::I64,
                        callee: String::from_str("js_get_string_pointer_unified"),
                        args: a,
                    },
                );
                args.push((Ty::I64, Operand::Reg(q)));
                assert(insts_view(insts@) =~= insts_view(pi) + seq![
                    InstV::Call {
                        dest: Some(q),
                        ret: Ty::I64,
                        callee: "js_get_string_pointer_unified"@,
                        args: seq![(Ty::Double, v_view)],
                    },
                ]);
                assert(args_view(args@) =~= args_view(pa).push((Ty::I64, OperandV::Reg(q))));
                q = q + 1;
            },
            UiArgKind::F64 | UiArgKind::Closure => {
                args.push((Ty::Double, v));
                assert(insts_view(insts@) =~= insts_view(pi) + Seq::<InstV>::empty());
                assert(args_view(args@) =~= args_view(pa).push((Ty::Double, v_view)));
            },
            UiArgKind::I64Raw => {
                insts.push(Inst::Fptosi { dest: q, to: Ty::I64, val: v });
                args.push((Ty::I64, Operand::Reg(q)));
                assert(insts_view(insts@) =~= insts_view(pi) + seq![InstV::Fptosi { dest: q, to: Ty::I64, val: v_view }]);
                assert(args_view(args@) =~= args_view(pa).push((Ty::I64, OperandV::Reg(q))));
                q = q + 1;
            },
        }
        k = k + 1;
    }
    assert(kinds@.take(kinds@.len() as int) =~= kinds@);
    (insts, args, q)
}

fn param_types(args: &Vec<(Ty, Operand)>) -> (tys: Vec<Ty>)
    ensures
        tys@ == args_view(args@).map_values(|a: (Ty, OperandV)| a.0),
{
    let mut tys: Vec<Ty> = Vec::new();
    let mut i: usize = 0;
    while i < args.len()
        invariant
            i <= args@.len(),
            tys@ =~= args_view(args@).take(i as int).map_values(|a: (Ty, OperandV)| a.0),
        decreases args@.len() - i,
    {
        tys.push(args[i].0);
        proof {
            assert(args_view(args@).take(i + 1) =~= args_view(args@).take(i as int).push(args_view(args@)[i as int]));
        }
        i = i + 1;
    }
    assert(args_view(args@).take(args@.len() as int) =~= args_view(args@));
    tys
}

/// Lowers a call described by the table row `sig` with the lowered
/// arguments: with an arity the row does not take (a trailing inline style
/// on a widget constructor aside), the value `0.0` with nothing emitted;
/// otherwise each declared argument coerced per its kind, the runtime
/// declared with the coerced types and called, and the result boxed per
/// the row's return kind (see `ui_call_state`). A widget constructor with a
/// trailing style answers its raw handle, to be styled and then boxed.
pub fn lower_perry_ui_table_call(b: &mut FnBuilder, sig: &UiSig, lowered_args: &Vec<Operand>) -> (res: UiOutcome)
    requires
        old(b)@.wf(),
        old(b)@.next_reg + sig@.args.len() + 2 <= u64::MAX,
    ensures
        final(b)@.wf(),
        ({
            let vals = operands_view(lowered_args@);
            if !ui_arity_ok(sig@, vals) {
                (res matches UiOutcome::Value(o) && o@ == OperandV::Zero) && final(b)@ == old(b)@
            } else {
                &&& final(b)@ == ui_call_state(old(b)@, sig@, vals)
                &&& match ui_call_value(old(b)@, sig@, vals) {
                    Some(v) => res matches UiOutcome::Value(o) && o@ == v,
                    None => res == UiOutcome::StyledWidget {
                        handle: ui_args(sig@.args, effective_vals(sig@, vals), old(b)@.next_reg).2 as u64,
                    },
                }
            }
        }),
{
    let ghost vals = operands_view(lowered_args@);
    let ghost pre = b@;
    proof {
        reveal_strlit("appSetTimer");
    }
    let synth = str_eq(sig.method, "appSetTimer") && lowered_args.len() == 2 && sig.args.len() == 3;
    let mut eff: Vec<Operand> = Vec::new();
    if synth {
        eff.push(Operand::Zero);
    }
    let mut k: usize = 0;
    while k < lowered_args.len()
        invariant
            k <= lowered_args@.len(),
            vals == operands_view(lowered_args@),
            operands_view(eff@) == (if synth { seq![OperandV::Zero] } else { Seq::empty() }) + vals.take(k as int),
        decreases lowered_args@.len() - k,
    {
        let ghost before = eff@;
        eff.push(crate::ir::copy_operand(&lowered_args[k]));
        proof {
            assert(operands_view(eff@) =~= operands_view(before).push(vals[k as int]));
            assert(vals.take(k + 1) =~= vals.take(k as int).push(vals[k as int]));
        }
        k = k + 1;
    }
    proof {
        assert(vals.take(vals.len() as int) =~= vals);
        assert(operands_view(eff@) =~= effective_vals(sig@, vals));
    }
    let n = sig.args.len();
    let style = eff.len() > n && eff.len() - 1 == n && sig.ret == UiReturnKind::Widget;
    if eff.len() != n && !style {
        return UiOutcome::Value(Operand::Zero);
    }
    let r = b.peek_reg();
    proof {
        lemma_ui_args_regs(sig@.args, operands_view(eff@), r as int);
    }
    let (mut insts, args, q) = build_ui_args(&sig.args, &eff, r);
    let ghost ai = insts_view(insts@);
    let ghost av = args_view(args@);
    let rt = match sig.ret {
        UiReturnKind::Widget | UiReturnKind::I64AsF64 | UiReturnKind::Str => Ty::I64,
        UiReturnKind::F64 => Ty::Double,
        UiReturnKind::Void => Ty::Void,
    };
    b.declare(sig.runtime, rt, param_types(&args));
    let dest = if sig.ret == UiReturnKind::Void {
        None
    } else {
        Some(q)
    };
    insts.push(Inst::Call { dest, ret: rt, callee: String::from_str(sig.runtime), args });
    let ghost with_call = insts@;
    let (used, out) = match sig.ret {
        UiReturnKind::Widget => if style {
            (1u64, UiOutcome::StyledWidget { handle: q })
        } else {
            insts.push(Inst::NanboxPointer { dest: q + 1, val: Operand::Reg(q) });
            (2u64, UiOutcome::Value(Operand::Reg(q + 1)))
        },
        UiReturnKind::Str => {
            insts.push(Inst::NanboxString { dest: q + 1, val: Operand::Reg(q) });
            (2u64, UiOutcome::Value(Operand::Reg(q + 1)))
        },
        UiReturnKind::I64AsF64 => {
            insts.push(Inst::Sitofp { dest: q + 1, from: Ty::I64, val: Operand::Reg(q) });
            (2u64, UiOutcome::Value(Operand::Reg(q + 1)))
        },
        UiReturnKind::F64 => (1u64, UiOutcome::Value(Operand::Reg(q))),
        UiReturnKind::Void => (0u64, UiOutcome::Value(Operand::Zero)),
    };
    proof {
        let call = InstV::Call { dest: if sig@.ret == UiReturnKind::Void { None } else { Some(q) }, ret: rt, callee: sig@.runtime, args: av };
        assert(insts_view(with_call) =~= ai + seq![call]);
        let tail = match sig@.ret {
            UiReturnKind::Widget => if style {
                Seq::empty()
            } else {
                seq![InstV::NanboxPointer { dest: (q + 1) as u64, val: OperandV::Reg(q) }]
            },
            UiReturnKind::Str => seq![InstV::NanboxString { dest: (q + 1) as u64, val: OperandV::Reg(q) }],
            UiReturnKind::I64AsF64 => seq![InstV::Sitofp { dest: (q + 1) as u64, from: Ty::I64, val: OperandV::Reg(q) }],
            _ => Seq::<InstV>::empty(),
        };
        assert(insts_view(insts@) =~= ai + seq![call] + tail);
    }
    b.reserve_regs(q + used - r);
    b.push_all(insts);
    out
}

/// Boxes the handle of a widget created by `lower_perry_ui_table_call`
/// once its inline style was applied: the NaN-boxed pointer.
pub fn finish_styled_widget(b: &mut FnBuilder, handle: u64) -> (res: Operand)
    requires
        old(b)@.wf(),
        old(b)@.next_reg < u64::MAX,
    ensures
        res@ == OperandV::Reg(old(b)@.next_reg as u64),
        final(b)@ == (FnBuilderV { next_reg: old(b)@.next_reg + 1, ..old(b)@ }).append_cur(
            seq![InstV::NanboxPointer { dest: old(b)@.next_reg as u64, val: OperandV::Reg(handle) }],
        ),
        final(b)@.wf(),
{
    let r = b.fresh_reg();
    b.push(Inst::NanboxPointer { dest: r, val: Operand::Reg(handle) });
    Operand::Reg(r)
}

} // verus!
