//! `console.*` calls. Every method of the console surface is routed to a
//! runtime function; the choice depends on the method and on how many
//! arguments the call passes.

use vstd::prelude::*;

use crate::hir::Expr;
use crate::ir::{args_view, copy_operand, lemma_append_cur_empty, lemma_append_cur_twice, operands_view, Arg, FnBuilder, FnBuilderV, Inst, InstV, JsTag, Operand, OperandV, Ty};
use crate::marshal::{array_insts, emit_js_array};
use crate::override_check::{intern_index, intern_strings};
use crate::text::str_eq;
use crate::web_events::arg_or_undefined;

verus! {

/// The output stream of a spread print.
#[derive(Copy, Clone, Debug, PartialEq, Eq, Structural)]
pub enum SpreadStream {
    Log,
    Info,
    Debug,
    Warn,
    Error,
}

/// A labelled timer or counter operation.
#[derive(Copy, Clone, Debug, PartialEq, Eq, Structural)]
pub enum LabelOp {
    Time,
    TimeEnd,
    TimeLog,
    Count,
    CountReset,
}

/// A console operation without arguments.
#[derive(Copy, Clone, Debug, PartialEq, Eq, Structural)]
pub enum NullaryOp {
    GroupEnd,
    Clear,
    GroupBegin,
}

/// How a `console.<method>(args)` call is lowered.
#[derive(Copy, Clone, Debug, PartialEq, Eq, Structural)]
pub enum ConsolePlan {
    /// `call void @<op>()`; the call yields `undefined`.
    Nullary(NullaryOp),
    /// A dataless print: `call void @<stream>_spread(i64 0)` (prints a newline).
    EmptySpread(SpreadStream),
    /// `js_console_trace(undefined)`.
    TraceUndefined,
    /// Nothing is emitted.
    Nothing,
    /// Each argument through `js_console_log_dynamic`, then
    /// `js_console_group_begin`.
    GroupWithLabel,
    /// All arguments packed in an array for `js_console_trace_spread`.
    TraceSpread,
    /// `js_console_table(data)` or, with a second argument,
    /// `js_console_table_with_properties(data, properties)`.
    Table { with_properties: bool },
    /// `js_console_time_log_spread(label, [args[1..]])`.
    TimeLogSpread,
    /// The `*_value` runtime function of the operation on the first
    /// argument (further arguments are not evaluated).
    LabelValue(LabelOp),
    /// The operation on the implicit label `"default"`.
    DefaultLabel(LabelOp),
    /// `js_console_assert(cond, 0)`, `cond` being `undefined` when absent.
    AssertSingle,
    /// `js_console_assert_spread(cond, [args[1..]])`.
    AssertSpread,
    /// `js_console_dir_with_options(obj, options or undefined)`; further
    /// arguments are evaluated and discarded.
    Dir,
    /// All arguments packed in an array for the stream's spread printer.
    Spread(SpreadStream),
}

/// The console methods this lowering handles.
pub open spec fn is_console_method(p: Seq<char>) -> bool {
    ||| p == "log"@
    ||| p == "info"@
    ||| p == "warn"@
    ||| p == "error"@
    ||| p == "debug"@
    ||| p == "dir"@
    ||| p == "table"@
    ||| p == "trace"@
    ||| p == "group"@
    ||| p == "groupEnd"@
    ||| p == "groupCollapsed"@
    ||| p == "time"@
    ||| p == "timeEnd"@
    ||| p == "timeLog"@
    ||| p == "count"@
    ||| p == "countReset"@
    ||| p == "clear"@
    ||| p == "assert"@
}

/// The timer/counter operation a method names, if any.
pub open spec fn label_op_spec(p: Seq<char>) -> Option<LabelOp> {
    if p == "time"@ {
        Some(LabelOp::Time)
    } else if p == "timeEnd"@ {
        Some(LabelOp::TimeEnd)
    } else if p == "timeLog"@ {
        Some(LabelOp::TimeLog)
    } else if p == "count"@ {
        Some(LabelOp::Count)
    } else if p == "countReset"@ {
        Some(LabelOp::CountReset)
    } else {
        None
    }
}

/// The stream a printing method writes to (`log` for any other method).
pub open spec fn stream_spec(p: Seq<char>) -> SpreadStream {
    if p == "info"@ {
        SpreadStream::Info
    } else if p == "debug"@ {
        SpreadStream::Debug
    } else if p == "warn"@ {
        SpreadStream::Warn
    } else if p == "error"@ {
        SpreadStream::Error
    } else {
        SpreadStream::Log
    }
}

/// How `console.<p>` with `n` arguments is lowered.
pub open spec fn console_plan_spec(p: Seq<char>, n: nat) -> Option<ConsolePlan> {
    if !is_console_method(p) {
        None
    } else if n == 0 && p == "groupEnd"@ {
        Some(ConsolePlan::Nullary(NullaryOp::GroupEnd))
    } else if n == 0 && p == "clear"@ {
        Some(ConsolePlan::Nullary(NullaryOp::Clear))
    } else if n == 0 && (p == "group"@ || p == "groupCollapsed"@) {
        Some(ConsolePlan::Nullary(NullaryOp::GroupBegin))
    } else if n == 0 && label_op_spec(p) is Some {
        Some(ConsolePlan::DefaultLabel(label_op_spec(p)->0))
    } else if n == 0 && (p == "log"@ || p == "info"@ || p == "debug"@) {
        Some(ConsolePlan::EmptySpread(SpreadStream::Log))
    } else if n == 0 && p == "warn"@ {
        Some(ConsolePlan::EmptySpread(SpreadStream::Warn))
    } else if n == 0 && p == "error"@ {
        Some(ConsolePlan::EmptySpread(SpreadStream::Error))
    } else if n == 0 && p == "trace"@ {
        Some(ConsolePlan::TraceUndefined)
    } else if n == 0 {
        Some(ConsolePlan::Nothing)
    } else if p == "group"@ || p == "groupCollapsed"@ {
        Some(ConsolePlan::GroupWithLabel)
    } else if p == "trace"@ {
        Some(ConsolePlan::TraceSpread)
    } else if p == "table"@ && (n == 1 || n == 2) {
        Some(ConsolePlan::Table { with_properties: n == 2 })
    } else if p == "timeLog"@ && n > 1 {
        Some(ConsolePlan::TimeLogSpread)
    } else if label_op_spec(p) is Some {
        Some(ConsolePlan::LabelValue(label_op_spec(p)->0))
    } else if p == "assert"@ {
        if n <= 1 {
            Some(ConsolePlan::AssertSingle)
        } else {
            Some(ConsolePlan::AssertSpread)
        }
    } else if p == "dir"@ {
        Some(ConsolePlan::Dir)
    } else {
        Some(ConsolePlan::Spread(stream_spec(p)))
    }
}

fn label_op(p: &str) -> (res: Option<LabelOp>)
    ensures
        res == label_op_spec(p@),
{
    if str_eq(p, "time") {
        Some(LabelOp::Time)
    } else if str_eq(p, "timeEnd") {
        Some(LabelOp::TimeEnd)
    } else if str_eq(p, "timeLog") {
        Some(LabelOp::TimeLog)
    } else if str_eq(p, "count") {
        Some(LabelOp::Count)
    } else if str_eq(p, "countReset") {
        Some(LabelOp::CountReset)
    } else {
        None
    }
}

fn stream(p: &str) -> (res: SpreadStream)
    ensures
        res == stream_spec(p@),
{
    if str_eq(p, "info") {
        SpreadStream::Info
    } else if str_eq(p, "debug") {
        SpreadStream::Debug
    } else if str_eq(p, "warn") {
        SpreadStream::Warn
    } else if str_eq(p, "error") {
        SpreadStream::Error
    } else {
        SpreadStream::Log
    }
}

fn is_console(p: &str) -> (res: bool)
    ensures
        res == is_console_method(p@),
{
    str_eq(p, "log") || str_eq(p, "info") || str_eq(p, "warn") || str_eq(p, "error") || str_eq(p, "debug")
        || str_eq(p, "dir") || str_eq(p, "table") || str_eq(p, "trace") || str_eq(p, "group") || str_eq(
        p,
        "groupEnd",
    ) || str_eq(p, "groupCollapsed") || str_eq(p, "time") || str_eq(p, "timeEnd") || str_eq(p, "timeLog")
        || str_eq(p, "count") || str_eq(p, "countReset") || str_eq(p, "clear") || str_eq(p, "assert")
}

/// Decides how `console.<property>(args)` with `nargs` arguments is lowered;
/// `None` when `property` is not a console method this lowering handles.
pub fn console_call_plan(property: &str, nargs: usize) -> (res: Option<ConsolePlan>)
    ensures
        res == console_plan_spec(property@, nargs as nat),
{
    if !is_console(property) {
        return None;
    }
    let op = label_op(property);
    if nargs == 0 {
        if str_eq(property, "groupEnd") {
            return Some(ConsolePlan::Nullary(NullaryOp::GroupEnd));
        }
        if str_eq(property, "clear") {
            return Some(ConsolePlan::Nullary(NullaryOp::Clear));
        }
        if str_eq(property, "group") || str_eq(property, "groupCollapsed") {
            return Some(ConsolePlan::Nullary(NullaryOp::GroupBegin));
        }
        // count/time* with the implicit "default" label.
        if let Some(o) = op {
            return Some(ConsolePlan::DefaultLabel(o));
        }
        // Zero-arg log/info/debug print a newline on stdout.
        if str_eq(property, "log") || str_eq(property, "info") || str_eq(property, "debug") {
            return Some(ConsolePlan::EmptySpread(SpreadStream::Log));
        }
        if str_eq(property, "warn") {
            return Some(ConsolePlan::EmptySpread(SpreadStream::Warn));
        }
        if str_eq(property, "error") {
            return Some(ConsolePlan::EmptySpread(SpreadStream::Error));
        }
        if str_eq(property, "trace") {
            return Some(ConsolePlan::TraceUndefined);
        }
        // Other zero-arg methods (dir, assert, table) print nothing.
        return Some(ConsolePlan::Nothing);
    }
    if str_eq(property, "group") || str_eq(property, "groupCollapsed") {
        return Some(ConsolePlan::GroupWithLabel);
    }
    if str_eq(property, "trace") {
        return Some(ConsolePlan::TraceSpread);
    }
    if str_eq(property, "table") && (nargs == 1 || nargs == 2) {
        return Some(ConsolePlan::Table { with_properties: nargs == 2 });
    }
    if str_eq(property, "timeLog") && nargs > 1 {
        return Some(ConsolePlan::TimeLogSpread);
    }
    if let Some(o) = op {
        return Some(ConsolePlan::LabelValue(o));
    }
    if str_eq(property, "assert") {
        if nargs <= 1 {
            return Some(ConsolePlan::AssertSingle);
        } else {
            return Some(ConsolePlan::AssertSpread);
        }
    }
    if str_eq(property, "dir") {
        return Some(ConsolePlan::Dir);
    }
    Some(ConsolePlan::Spread(stream(property)))
}

/// The spread printer of a stream.
pub open spec fn spread_name(s: SpreadStream) -> Seq<char> {
    match s {
        SpreadStream::Log => "js_console_log_spread"@,
        SpreadStream::Info => "js_console_info_spread"@,
        SpreadStream::Debug => "js_console_debug_spread"@,
        SpreadStream::Warn => "js_console_warn_spread"@,
        SpreadStream::Error => "js_console_error_spread"@,
    }
}

/// The spread printer of a stream.
pub fn spread_runtime(s: SpreadStream) -> (res: &'static str)
    ensures
        res@ == spread_name(s),
{
    match s {
        SpreadStream::Log => "js_console_log_spread",
        SpreadStream::Info => "js_console_info_spread",
        SpreadStream::Debug => "js_console_debug_spread",
        SpreadStream::Warn => "js_console_warn_spread",
        SpreadStream::Error => "js_console_error_spread",
    }
}

/// The runtime function of a timer/counter operation on an explicit label
/// value (`with_value`) or on a string-handle label.
pub open spec fn label_name(op: LabelOp, with_value: bool) -> Seq<char> {
    match (op, with_value) {
        (LabelOp::Time, true) => "js_console_time_value"@,
        (LabelOp::TimeEnd, true) => "js_console_time_end_value"@,
        (LabelOp::TimeLog, true) => "js_console_time_log_value"@,
        (LabelOp::Count, true) => "js_console_count_value"@,
        (LabelOp::CountReset, true) => "js_console_count_reset_value"@,
        (LabelOp::Time, false) => "js_console_time"@,
        (LabelOp::TimeEnd, false) => "js_console_time_end"@,
        (LabelOp::TimeLog, false) => "js_console_time_log"@,
        (LabelOp::Count, false) => "js_console_count"@,
        (LabelOp::CountReset, false) => "js_console_count_reset"@,
    }
}

/// The runtime function of a timer/counter operation on an explicit label
/// value (`with_value`) or on a string-handle label.
pub fn label_runtime(op: LabelOp, with_value: bool) -> (res: &'static str)
    ensures
        res@ == label_name(op, with_value),
{
    match (op, with_value) {
        (LabelOp::Time, true) => "js_console_time_value",
        (LabelOp::TimeEnd, true) => "js_console_time_end_value",
        (LabelOp::TimeLog, true) => "js_console_time_log_value",
        (LabelOp::Count, true) => "js_console_count_value",
        (LabelOp::CountReset, true) => "js_console_count_reset_value",
        (LabelOp::Time, false) => "js_console_time",
        (LabelOp::TimeEnd, false) => "js_console_time_end",
        (LabelOp::TimeLog, false) => "js_console_time_log",
        (LabelOp::Count, false) => "js_console_count",
        (LabelOp::CountReset, false) => "js_console_count_reset",
    }
}

/// The runtime function of a nullary console operation.
pub open spec fn nullary_name(op: NullaryOp) -> Seq<char> {
    match op {
        NullaryOp::GroupEnd => "js_console_group_end"@,
        NullaryOp::Clear => "js_console_clear"@,
        NullaryOp::GroupBegin => "js_console_group_begin"@,
    }
}

/// The runtime function of a nullary console operation.
pub fn nullary_runtime(op: NullaryOp) -> (res: &'static str)
    ensures
        res@ == nullary_name(op),
{
    match op {
        NullaryOp::GroupEnd => "js_console_group_end",
        NullaryOp::Clear => "js_console_clear",
        NullaryOp::GroupBegin => "js_console_group_begin",
    }
}

/// `call void @callee(args)`.
pub open spec fn void_call(callee: Seq<char>, args: Seq<(Ty, OperandV)>) -> InstV {
    InstV::Call { dest: None, ret: Ty::Void, callee, args }
}

/// The console plan of `callee(args)` with `n` arguments, when `callee` is
/// `console.<method>` read off a global.
pub open spec fn console_call_target(callee: Expr, n: nat) -> Option<ConsolePlan> {
    match callee {
        Expr::PropertyGet { object, property } => if *object is GlobalGet {
            console_plan_spec(property@, n)
        } else {
            None
        },
        _ => None,
    }
}

/// A print of each value through `js_console_log_dynamic`.
pub open spec fn log_each(vals: Seq<OperandV>) -> Seq<InstV> {
    vals.map_values(|v: OperandV| void_call("js_console_log_dynamic"@, seq![(Ty::Double, v)]))
}

/// The function state after a console call lowered per `plan`, from `pre`,
/// with the lowered arguments `vals`.
pub open spec fn console_result(pre: FnBuilderV, plan: ConsolePlan, vals: Seq<OperandV>) -> FnBuilderV {
    let r = pre.next_reg;
    let n = vals.len();
    let undef = OperandV::Tag(JsTag::Undefined);
    match plan {
        ConsolePlan::Nullary(op) => pre.append_cur(seq![void_call(nullary_name(op), seq![])]),
        ConsolePlan::EmptySpread(st) => pre.append_cur(seq![void_call(spread_name(st), seq![(Ty::I64, OperandV::Int(0))])]),
        ConsolePlan::TraceUndefined => pre.append_cur(seq![void_call("js_console_trace"@, seq![(Ty::Double, undef)])]),
        ConsolePlan::Nothing => pre,
        ConsolePlan::GroupWithLabel => pre.append_cur(log_each(vals).push(void_call("js_console_group_begin"@, seq![]))),
        ConsolePlan::TraceSpread => (FnBuilderV { next_reg: r + n + 1, ..pre }).append_cur(
            array_insts(vals, r).push(void_call("js_console_trace_spread"@, seq![(Ty::I64, OperandV::Reg((r + n) as u64))])),
        ),
        ConsolePlan::Table { with_properties } => pre.append_cur(
            seq![
                if with_properties {
                    void_call(
                        "js_console_table_with_properties"@,
                        seq![(Ty::Double, arg_or_undefined(vals, 0)), (Ty::Double, arg_or_undefined(vals, 1))],
                    )
                } else {
                    void_call("js_console_table"@, seq![(Ty::Double, arg_or_undefined(vals, 0))])
                },
            ],
        ),
        ConsolePlan::TimeLogSpread => {
            let rest = vals.skip(1);
            (FnBuilderV { next_reg: r + rest.len() + 1, ..pre }).append_cur(
                array_insts(rest, r).push(
                    void_call(
                        "js_console_time_log_spread"@,
                        seq![(Ty::Double, arg_or_undefined(vals, 0)), (Ty::I64, OperandV::Reg((r + rest.len()) as u64))],
                    ),
                ),
            )
        },
        ConsolePlan::LabelValue(op) => pre.append_cur(
            seq![void_call(label_name(op, true), seq![(Ty::Double, arg_or_undefined(vals, 0))])],
        ),
        ConsolePlan::DefaultLabel(op) => (FnBuilderV {
            next_reg: r + 2,
            strings: intern_strings(pre.strings, "default"@),
            ..pre
        }).append_cur(
            seq![
                InstV::Load {
                    dest: r as u64,
                    ty: Ty::Double,
                    ptr: OperandV::StrHandle(intern_index(pre.strings, "default"@) as usize),
                },
                InstV::Call {
                    dest: Some((r + 1) as u64),
                    ret: Ty::I64,
                    callee: "js_get_string_pointer_unified"@,
                    args: seq![(Ty::Double, OperandV::Reg(r as u64))],
                },
                void_call(label_name(op, false), seq![(Ty::I64, OperandV::Reg((r + 1) as u64))]),
            ],
        ),
        ConsolePlan::AssertSingle => pre.append_cur(
            seq![void_call("js_console_assert"@, seq![(Ty::Double, arg_or_undefined(vals, 0)), (Ty::I64, OperandV::Int(0))])],
        ),
        ConsolePlan::AssertSpread => {
            let rest = vals.skip(1);
            (FnBuilderV { next_reg: r + rest.len() + 1, ..pre }).append_cur(
                array_insts(rest, r).push(
                    void_call(
                        "js_console_assert_spread"@,
                        seq![(Ty::Double, arg_or_undefined(vals, 0)), (Ty::I64, OperandV::Reg((r + rest.len()) as u64))],
                    ),
                ),
            )
        },
        ConsolePlan::Dir => pre.append_cur(
            seq![
                void_call(
                    "js_console_dir_with_options"@,
                    seq![(Ty::Double, arg_or_undefined(vals, 0)), (Ty::Double, arg_or_undefined(vals, 1))],
                ),
            ],
        ),
        ConsolePlan::Spread(st) => (FnBuilderV { next_reg: r + n + 1, ..pre }).append_cur(
            array_insts(vals, r).push(void_call(spread_name(st), seq![(Ty::I64, OperandV::Reg((r + n) as u64))])),
        ),
    }
}

/// The lowered `i`-th argument, `undefined` when absent.
fn arg_or_undef(vals: &Vec<Operand>, i: usize) -> (res: Operand)
    ensures
        res@ == arg_or_undefined(operands_view(vals@), i as int),
{
    if i < vals.len() {
        copy_operand(&vals[i])
    } else {
        Operand::Tag(JsTag::Undefined)
    }
}

/// Emits `call void @callee(args)`, with `args` given by their views.
fn emit_void(b: &mut FnBuilder, callee: &str, args: Vec<Arg>)
    requires
        old(b)@.wf(),
    ensures
        final(b)@ == old(b)@.append_cur(seq![void_call(callee@, args_view(args@))]),
        final(b)@.wf(),
{
    b.call_void(callee, args);
}

/// Emits a JS array of `vals[from..]` and a void call of `callee` with
/// `head` (when given, as a `double`) and the array.
fn emit_array_call(b: &mut FnBuilder, callee: &str, head: Option<Operand>, vals: &Vec<Operand>, from: usize)
    requires
        old(b)@.wf(),
        from <= vals@.len(),
        vals@.len() <= u32::MAX,
        old(b)@.next_reg + vals@.len() + 1 <= u64::MAX,
    ensures
        ({
            let rest = operands_view(vals@).skip(from as int);
            let r = old(b)@.next_reg;
            let arr = (Ty::I64, OperandV::Reg((r + rest.len()) as u64));
            final(b)@ == (FnBuilderV { next_reg: r + rest.len() + 1, ..old(b)@ }).append_cur(
                array_insts(rest, r).push(
                    void_call(
                        callee@,
                        match head {
                            Some(h) => seq![(Ty::Double, h@), arr],
                            None => seq![arr],
                        },
                    ),
                ),
            )
        }),
        final(b)@.wf(),
{
    let ghost pre = b@;
    let ghost rest = operands_view(vals@).skip(from as int);
    let ghost hv = match &head {
        Some(h) => Some(h@),
        None => None::<OperandV>,
    };
    let arr = emit_js_array(b, vals, from);
    let args = match head {
        Some(h) => vec![(Ty::Double, h), (Ty::I64, Operand::Reg(arr))],
        None => vec![(Ty::I64, Operand::Reg(arr))],
    };
    let ghost want = match hv {
        Some(h) => seq![(Ty::Double, h), (Ty::I64, OperandV::Reg(arr))],
        None => seq![(Ty::I64, OperandV::Reg(arr))],
    };
    assert(args_view(args@) =~= want);
    b.call_void(callee, args);
    proof {
        let st = FnBuilderV { next_reg: pre.next_reg + rest.len() + 1, ..pre };
        lemma_append_cur_twice(st, array_insts(rest, pre.next_reg), seq![void_call(callee@, want)]);
        assert(array_insts(rest, pre.next_reg) + seq![void_call(callee@, want)] =~= array_insts(rest, pre.next_reg).push(void_call(callee@, want)));
    }
}

/// Emits a console call per `plan` with the lowered arguments.
fn emit_console_plan(b: &mut FnBuilder, plan: ConsolePlan, vals: &Vec<Operand>)
    requires
        old(b)@.wf(),
        vals@.len() <= u32::MAX,
        old(b)@.next_reg + vals@.len() + 3 <= u64::MAX,
        (plan is TimeLogSpread || plan is AssertSpread) ==> vals@.len() >= 1,
    ensures
        final(b)@ == console_result(old(b)@, plan, operands_view(vals@)),
        final(b)@.wf(),
{
    let ghost pre = b@;
    let ghost vv = operands_view(vals@);
    match plan {
        ConsolePlan::Nullary(op) => {
            let a: Vec<Arg> = Vec::new();
            assert(args_view(a@) =~= Seq::<(Ty, OperandV)>::empty());
            emit_void(b, nullary_runtime(op), a);
        },
        ConsolePlan::EmptySpread(st) => {
            let a = vec![(Ty::I64, Operand::Int(0))];
            assert(args_view(a@) =~= seq![(Ty::I64, OperandV::Int(0))]);
            emit_void(b, spread_runtime(st), a);
        },
        ConsolePlan::TraceUndefined => {
            let a = vec![(Ty::Double, Operand::Tag(JsTag::Undefined))];
            assert(args_view(a@) =~= seq![(Ty::Double, OperandV::Tag(JsTag::Undefined))]);
            emit_void(b, "js_console_trace", a);
        },
        ConsolePlan::Nothing => {},
        ConsolePlan::GroupWithLabel => {
            proof {
                lemma_append_cur_empty(pre);
                assert(log_each(vv).take(0) =~= Seq::<InstV>::empty());
            }
            let mut i: usize = 0;
            while i < vals.len()
                invariant
                    pre.wf(),
                    i <= vals@.len(),
                    vv == operands_view(vals@),
                    b@ == pre.append_cur(log_each(vv).take(i as int)),
                    b@.wf(),
                decreases vals@.len() - i,
            {
                let a = vec![(Ty::Double, copy_operand(&vals[i]))];
                assert(args_view(a@) =~= seq![(Ty::Double, vv[i as int])]);
                emit_void(b, "js_console_log_dynamic", a);
                proof {
                    lemma_append_cur_twice(pre, log_each(vv).take(i as int), seq![log_each(vv)[i as int]]);
                    assert(log_each(vv).take(i as int) + seq![log_each(vv)[i as int]] =~= log_each(vv).take(i + 1));
                }
                i = i + 1;
            }
            let a: Vec<Arg> = Vec::new();
            assert(args_view(a@) =~= Seq::<(Ty, OperandV)>::empty());
            emit_void(b, "js_console_group_begin", a);
            proof {
                let g = void_call("js_console_group_begin"@, seq![]);
                assert(log_each(vv).take(vv.len() as int) =~= log_each(vv));
                lemma_append_cur_twice(pre, log_each(vv), seq![g]);
                assert(log_each(vv) + seq![g] =~= log_each(vv).push(g));
            }
        },
        ConsolePlan::TraceSpread => {
            emit_array_call(b, "js_console_trace_spread", None, vals, 0);
            assert(vv.skip(0) =~= vv);
        },
        ConsolePlan::Table { with_properties } => {
            if with_properties {
                let a = vec![(Ty::Double, arg_or_undef(vals, 0)), (Ty::Double, arg_or_undef(vals, 1))];
                assert(args_view(a@) =~= seq![(Ty::Double, arg_or_undefined(vv, 0)), (Ty::Double, arg_or_undefined(vv, 1))]);
                emit_void(b, "js_console_table_with_properties", a);
            } else {
                let a = vec![(Ty::Double, arg_or_undef(vals, 0))];
                assert(args_view(a@) =~= seq![(Ty::Double, arg_or_undefined(vv, 0))]);
                emit_void(b, "js_console_table", a);
            }
        },
        ConsolePlan::TimeLogSpread => {
            emit_array_call(b, "js_console_time_log_spread", Some(arg_or_undef(vals, 0)), vals, 1);
        },
        ConsolePlan::LabelValue(op) => {
            let a = vec![(Ty::Double, arg_or_undef(vals, 0))];
            assert(args_view(a@) =~= seq![(Ty::Double, arg_or_undefined(vv, 0))]);
            emit_void(b, label_runtime(op, true), a);
        },
        ConsolePlan::DefaultLabel(op) => {
            let idx = b.intern("default");
            let ghost s1 = b@;
            assert(s1 == (FnBuilderV { strings: intern_strings(pre.strings, "default"@), ..pre }));
            let r = b.reserve_regs(2);
            let a = vec![(Ty::Double, Operand::Reg(r))];
            let c = vec![(Ty::I64, Operand::Reg(r + 1))];
            assert(args_view(a@) =~= seq![(Ty::Double, OperandV::Reg(r))]);
            assert(args_view(c@) =~= seq![(Ty::I64, OperandV::Reg((r + 1) as u64))]);
            let insts = vec![
                Inst::Load { dest: r, ty: Ty::Double, ptr: Operand::StrHandle(idx) },
                Inst::Call {
                    dest: Some(r + 1),
                    ret: Ty::I64,
                    callee: String::from_str("js_get_string_pointer_unified"),
                    args: a,
                },
                Inst::Call { dest: None, ret: Ty::Void, callee: String::from_str(label_runtime(op, false)), args: c },
            ];
            assert(idx == intern_index(pre.strings, "default"@));
            assert(crate::ir::insts_view(insts@) =~= seq![
                InstV::Load { dest: r, ty: Ty::Double, ptr: OperandV::StrHandle(idx) },
                InstV::Call {
                    dest: Some((r + 1) as u64),
                    ret: Ty::I64,
                    callee: "js_get_string_pointer_unified"@,
                    args: seq![(Ty::Double, OperandV::Reg(r))],
                },
                void_call(label_name(op, false), seq![(Ty::I64, OperandV::Reg((r + 1) as u64))]),
            ]);
            b.push_all(insts);
        },
        ConsolePlan::AssertSingle => {
            let a = vec![(Ty::Double, arg_or_undef(vals, 0)), (Ty::I64, Operand::Int(0))];
            assert(args_view(a@) =~= seq![(Ty::Double, arg_or_undefined(vv, 0)), (Ty::I64, OperandV::Int(0))]);
            emit_void(b, "js_console_assert", a);
        },
        ConsolePlan::AssertSpread => {
            emit_array_call(b, "js_console_assert_spread", Some(arg_or_undef(vals, 0)), vals, 1);
        },
        ConsolePlan::Dir => {
            let a = vec![(Ty::Double, arg_or_undef(vals, 0)), (Ty::Double, arg_or_undef(vals, 1))];
            assert(args_view(a@) =~= seq![(Ty::Double, arg_or_undefined(vv, 0)), (Ty::Double, arg_or_undefined(vv, 1))]);
            emit_void(b, "js_console_dir_with_options", a);
        },
        ConsolePlan::Spread(st) => {
            emit_array_call(b, spread_runtime(st), None, vals, 0);
            assert(vv.skip(0) =~= vv);
        },
    }
}

/// Lowers `console.<method>(args)` (the receiver read off a global) per
/// its plan (see `console_call_plan`), with the lowered arguments; the call
/// yields `undefined`. `None`, with nothing emitted, for any other callee.
pub fn try_lower_console_call(b: &mut FnBuilder, callee: &Expr, lowered_args: &Vec<Operand>) -> (res: Option<Operand>)
    requires
        old(b)@.wf(),
        lowered_args@.len() <= u32::MAX,
        old(b)@.next_reg + lowered_args@.len() + 3 <= u64::MAX,
    ensures
        match console_call_target(*callee, lowered_args@.len()) {
            None => res is None && final(b)@ == old(b)@,
            Some(plan) => res matches Some(o) && o@ == OperandV::Tag(JsTag::Undefined) && final(b)@ == console_result(
                old(b)@,
                plan,
                operands_view(lowered_args@),
            ),
        },
        final(b)@.wf(),
{
    let property = match callee {
        Expr::PropertyGet { object, property } => match **object {
            Expr::GlobalGet(_) => property,
            _ => return None,
        },
        _ => return None,
    };
    match console_call_plan(property.as_str(), lowered_args.len()) {
        Some(plan) => {
            emit_console_plan(b, plan, lowered_args);
            Some(Operand::Tag(JsTag::Undefined))
        },
        None => None,
    }
}

/// Printing methods route each call with arguments to the spread printer of
/// their own stream: `warn` and `error` never print through `log`'s, and
/// every console method has a lowering whatever the argument count.
pub proof fn law_console_stream_routing(p: Seq<char>, n: nat)
    ensures
        n >= 1 && p == "warn"@ ==> console_plan_spec(p, n) == Some(ConsolePlan::Spread(SpreadStream::Warn)),
        n >= 1 && p == "error"@ ==> console_plan_spec(p, n) == Some(ConsolePlan::Spread(SpreadStream::Error)),
        n >= 1 && p == "info"@ ==> console_plan_spec(p, n) == Some(ConsolePlan::Spread(SpreadStream::Info)),
        n >= 1 && p == "debug"@ ==> console_plan_spec(p, n) == Some(ConsolePlan::Spread(SpreadStream::Debug)),
        n >= 1 && p == "log"@ ==> console_plan_spec(p, n) == Some(ConsolePlan::Spread(SpreadStream::Log)),
        is_console_method(p) <==> console_plan_spec(p, n) is Some,
{
    reveal_strlit("warn");
    reveal_strlit("error");
    reveal_strlit("info");
    reveal_strlit("debug");
    reveal_strlit("log");
    reveal_strlit("group");
    reveal_strlit("groupCollapsed");
    reveal_strlit("trace");
    reveal_strlit("table");
    reveal_strlit("timeLog");
    reveal_strlit("time");
    reveal_strlit("timeEnd");
    reveal_strlit("count");
    reveal_strlit("countReset");
    reveal_strlit("assert");
    reveal_strlit("dir");
    // Literals of equal length differ in their first character.
    assert("warn"@[0] != "time"@[0] && "warn"@[0] != "info"@[0]);
    assert("error"@[0] != "group"@[0] && "error"@[0] != "table"@[0] && "error"@[0] != "count"@[0]);
    assert("error"@[0] != "trace"@[0] && "error"@[0] != "debug"@[0]);
    assert("log"@[0] != "dir"@[0]);
    assert("info"@[0] != "time"@[0] && "debug"@[0] != "group"@[0] && "debug"@[0] != "table"@[0]);
    assert("debug"@[0] != "count"@[0] && "debug"@[0] != "trace"@[0]);
    assert("debug"@ != "group"@ && "debug"@ != "trace"@ && "debug"@ != "table"@ && "debug"@ != "count"@);
    assert(label_op_spec("debug"@) is None);
    if p == "debug"@ && n >= 1 {
        assert(is_console_method(p));
        assert(stream_spec(p) == SpreadStream::Debug);
        assert(!(p == "group"@ || p == "groupCollapsed"@));
        assert(p != "trace"@);
        assert(p != "table"@);
        assert(p != "timeLog"@);
        assert(p != "assert"@);
        assert("dir"@.len() == 3 && "debug"@.len() == 5);
        assert(p != "dir"@);
        assert(console_plan_spec(p, n) == Some(ConsolePlan::Spread(stream_spec(p))));
    }
}

/// How the console arm of a general call lowers `console.<method>(args)`,
/// where it differs from `ConsolePlan`.
#[derive(Copy, Clone, Debug, PartialEq, Eq, Structural)]
pub enum CallConsolePlan {
    /// As the console lowering does it.
    Shared(ConsolePlan),
    /// `js_console_trace(first)`.
    Trace,
    /// `js_console_table(first)`.
    Table,
    /// The operation on the string handle of the first argument.
    LabelValue(LabelOp),
    /// `js_console_assert(cond, message)`: the message's string handle with
    /// two arguments, else `0`.
    Assert,
    /// `js_console_log_dynamic(first)`.
    Dir,
    /// The stream's print of a single value: its `*_number` form when the
    /// argument is a number literal, its `*_dynamic` form otherwise.
    Single { stream: SpreadStream, number: bool },
}

/// The stream a general call's console print uses: `warn` and `error`
/// their own, every other method `log`'s.
pub open spec fn call_stream_spec(p: Seq<char>) -> SpreadStream {
    if p == "warn"@ {
        SpreadStream::Warn
    } else if p == "error"@ {
        SpreadStream::Error
    } else {
        SpreadStream::Log
    }
}

/// The single-value printer of a stream.
pub open spec fn single_name(s: SpreadStream, number: bool) -> Seq<char> {
    match (s, number) {
        (SpreadStream::Warn, true) => "js_console_warn_number"@,
        (SpreadStream::Warn, false) => "js_console_warn_dynamic"@,
        (SpreadStream::Error, true) => "js_console_error_number"@,
        (SpreadStream::Error, false) => "js_console_error_dynamic"@,
        (_, true) => "js_console_log_number"@,
        (_, false) => "js_console_log_dynamic"@,
    }
}

fn single_runtime(s: SpreadStream, number: bool) -> (res: &'static str)
    ensures
        res@ == single_name(s, number),
{
    match (s, number) {
        (SpreadStream::Warn, true) => "js_console_warn_number",
        (SpreadStream::Warn, false) => "js_console_warn_dynamic",
        (SpreadStream::Error, true) => "js_console_error_number",
        (SpreadStream::Error, false) => "js_console_error_dynamic",
        (_, true) => "js_console_log_number",
        (_, false) => "js_console_log_dynamic",
    }
}

/// How a general call lowers `console.<p>` with `n` arguments, `number`
/// saying whether the first argument is a number literal: without
/// arguments, `groupEnd` and `clear` call their runtime function, the
/// timers and counters use the label `"default"`, the printing methods
/// print an empty line on their stream, and the others do nothing; a group
/// prints its label; `trace` traces its first argument; `table` with one
/// argument renders it; a timer or counter with one label runs on it;
/// `assert` takes its condition and message; `dir` prints its first
/// argument; any other single argument is printed on the method's stream
/// (`warn`, `error`, else `log`); several arguments are printed together
/// on that stream.
pub open spec fn call_console_plan_spec(p: Seq<char>, n: nat, number: bool) -> Option<CallConsolePlan> {
    if !is_console_method(p) {
        None
    } else if n == 0 && p == "groupEnd"@ {
        Some(CallConsolePlan::Shared(ConsolePlan::Nullary(NullaryOp::GroupEnd)))
    } else if n == 0 && p == "clear"@ {
        Some(CallConsolePlan::Shared(ConsolePlan::Nullary(NullaryOp::Clear)))
    } else if n == 0 && label_op_spec(p) is Some {
        Some(CallConsolePlan::Shared(ConsolePlan::DefaultLabel(label_op_spec(p)->0)))
    } else if n == 0 && (p == "log"@ || p == "info"@ || p == "debug"@) {
        Some(CallConsolePlan::Shared(ConsolePlan::EmptySpread(SpreadStream::Log)))
    } else if n == 0 && p == "warn"@ {
        Some(CallConsolePlan::Shared(ConsolePlan::EmptySpread(SpreadStream::Warn)))
    } else if n == 0 && p == "error"@ {
        Some(CallConsolePlan::Shared(ConsolePlan::EmptySpread(SpreadStream::Error)))
    } else if n == 0 {
        Some(CallConsolePlan::Shared(ConsolePlan::Nothing))
    } else if p == "group"@ || p == "groupCollapsed"@ {
        Some(CallConsolePlan::Shared(ConsolePlan::GroupWithLabel))
    } else if p == "trace"@ {
        Some(CallConsolePlan::Trace)
    } else if p == "table"@ && n == 1 {
        Some(CallConsolePlan::Table)
    } else if label_op_spec(p) is Some && n == 1 {
        Some(CallConsolePlan::LabelValue(label_op_spec(p)->0))
    } else if p == "assert"@ {
        if n <= 2 {
            Some(CallConsolePlan::Assert)
        } else {
            Some(CallConsolePlan::Shared(ConsolePlan::AssertSpread))
        }
    } else if p == "dir"@ {
        Some(CallConsolePlan::Dir)
    } else if n == 1 {
        Some(CallConsolePlan::Single { stream: call_stream_spec(p), number })
    } else {
        Some(CallConsolePlan::Shared(ConsolePlan::Spread(call_stream_spec(p))))
    }
}

/// Decides how a general call lowers `console.<property>(args)` (see
/// `call_console_plan_spec`).
pub fn call_console_plan(property: &str, nargs: usize, number: bool) -> (res: Option<CallConsolePlan>)
    ensures
        res == call_console_plan_spec(property@, nargs as nat, number),
{
    if !is_console(property) {
        return None;
    }
    let op = label_op(property);
    if nargs == 0 {
        if str_eq(property, "groupEnd") {
            return Some(CallConsolePlan::Shared(ConsolePlan::Nullary(NullaryOp::GroupEnd)));
        }
        if str_eq(property, "clear") {
            return Some(CallConsolePlan::Shared(ConsolePlan::Nullary(NullaryOp::Clear)));
        }
        if let Some(o) = op {
            return Some(CallConsolePlan::Shared(ConsolePlan::DefaultLabel(o)));
        }
        if str_eq(property, "log") || str_eq(property, "info") || str_eq(property, "debug") {
            return Some(CallConsolePlan::Shared(ConsolePlan::EmptySpread(SpreadStream::Log)));
        }
        if str_eq(property, "warn") {
            return Some(CallConsolePlan::Shared(ConsolePlan::EmptySpread(SpreadStream::Warn)));
        }
        if str_eq(property, "error") {
            return Some(CallConsolePlan::Shared(ConsolePlan::EmptySpread(SpreadStream::Error)));
        }
        return Some(CallConsolePlan::Shared(ConsolePlan::Nothing));
    }
    if str_eq(property, "group") || str_eq(property, "groupCollapsed") {
        return Some(CallConsolePlan::Shared(ConsolePlan::GroupWithLabel));
    }
    if str_eq(property, "trace") {
        return Some(CallConsolePlan::Trace);
    }
    if str_eq(property, "table") && nargs == 1 {
        return Some(CallConsolePlan::Table);
    }
    if nargs == 1 {
        if let Some(o) = op {
            return Some(CallConsolePlan::LabelValue(o));
        }
    }
    if str_eq(property, "assert") {
        if nargs <= 2 {
            return Some(CallConsolePlan::Assert);
        }
        return Some(CallConsolePlan::Shared(ConsolePlan::AssertSpread));
    }
    if str_eq(property, "dir") {
        return Some(CallConsolePlan::Dir);
    }
    let s = if str_eq(property, "warn") {
        SpreadStream::Warn
    } else if str_eq(property, "error") {
        SpreadStream::Error
    } else {
        SpreadStream::Log
    };
    if nargs == 1 {
        Some(CallConsolePlan::Single { stream: s, number })
    } else {
        Some(CallConsolePlan::Shared(ConsolePlan::Spread(s)))
    }
}

/// The value of a general call's console call: `0.0` for a single print,
/// `table`, the timers and counters and a print of several values,
/// `undefined` otherwise.
pub open spec fn call_console_value(plan: CallConsolePlan) -> OperandV {
    match plan {
        CallConsolePlan::Shared(ConsolePlan::DefaultLabel(_)) => OperandV::Zero,
        CallConsolePlan::Shared(ConsolePlan::Spread(_)) => OperandV::Zero,
        CallConsolePlan::Table => OperandV::Zero,
        CallConsolePlan::LabelValue(_) => OperandV::Zero,
        CallConsolePlan::Single { .. } => OperandV::Zero,
        _ => OperandV::Tag(JsTag::Undefined),
    }
}

/// The function state after a general call's console call lowered per
/// `plan`, from `pre`, with the lowered arguments `vals`.
pub open spec fn call_console_result(pre: FnBuilderV, plan: CallConsolePlan, vals: Seq<OperandV>) -> FnBuilderV {
    let r = pre.next_reg;
    match plan {
        CallConsolePlan::Shared(cp) => console_result(pre, cp, vals),
        CallConsolePlan::Trace => pre.append_cur(seq![void_call("js_console_trace"@, seq![(Ty::Double, vals[0])])]),
        CallConsolePlan::Table => pre.append_cur(seq![void_call("js_console_table"@, seq![(Ty::Double, vals[0])])]),
        CallConsolePlan::LabelValue(op) => (FnBuilderV { next_reg: r + 1, ..pre }).append_cur(
            seq![
                InstV::Call {
                    dest: Some(r as u64),
                    ret: Ty::I64,
                    callee: "js_get_string_pointer_unified"@,
                    args: seq![(Ty::Double, vals[0])],
                },
                void_call(label_name(op, false), seq![(Ty::I64, OperandV::Reg(r as u64))]),
            ],
        ),
        CallConsolePlan::Assert => if vals.len() == 2 {
            (FnBuilderV { next_reg: r + 1, ..pre }).append_cur(
                seq![
                    InstV::Call {
                        dest: Some(r as u64),
                        ret: Ty::I64,
                        callee: "js_get_string_pointer_unified"@,
                        args: seq![(Ty::Double, vals[1])],
                    },
                    void_call("js_console_assert"@, seq![(Ty::Double, vals[0]), (Ty::I64, OperandV::Reg(r as u64))]),
                ],
            )
        } else {
            pre.append_cur(
                seq![void_call("js_console_assert"@, seq![(Ty::Double, arg_or_undefined(vals, 0)), (Ty::I64, OperandV::Int(0))])],
            )
        },
        CallConsolePlan::Dir => pre.append_cur(seq![void_call("js_console_log_dynamic"@, seq![(Ty::Double, vals[0])])]),
        CallConsolePlan::Single { stream, number } => pre.append_cur(
            seq![void_call(single_name(stream, number), seq![(Ty::Double, vals[0])])],
        ),
    }
}

/// The console arm of a general call: lowers `console.<method>(args)`
/// (the receiver read off a global) per `call_console_plan` with the
/// lowered arguments, `first_is_number` saying whether the first argument
/// is a number literal. `None`, with nothing emitted, for any other callee.
pub fn lower_call_console(b: &mut FnBuilder, callee: &Expr, first_is_number: bool, lowered_args: &Vec<Operand>) -> (res:
    Option<Operand>)
    requires
        old(b)@.wf(),
        lowered_args@.len() <= u32::MAX,
        old(b)@.next_reg + lowered_args@.len() + 3 <= u64::MAX,
    ensures
        match *callee {
            Expr::PropertyGet { object, property } => if *object is GlobalGet && call_console_plan_spec(
                property@,
                lowered_args@.len(),
                first_is_number,
            ) is Some {
                let plan = call_console_plan_spec(property@, lowered_args@.len(), first_is_number)->0;
                &&& res matches Some(o) && o@ == call_console_value(plan)
                &&& final(b)@ == call_console_result(old(b)@, plan, operands_view(lowered_args@))
            } else {
                res is None && final(b)@ == old(b)@
            },
            _ => res is None && final(b)@ == old(b)@,
        },
        final(b)@.wf(),
{
    let property = match callee {
        Expr::PropertyGet { object, property } => match **object {
            Expr::GlobalGet(_) => property,
            _ => return None,
        },
        _ => return None,
    };
    let ghost vv = operands_view(lowered_args@);
    let plan = match call_console_plan(property.as_str(), lowered_args.len(), first_is_number) {
        Some(p) => p,
        None => return None,
    };
    match plan {
        CallConsolePlan::Shared(cp) => {
            emit_console_plan(b, cp, lowered_args);
            match cp {
                ConsolePlan::DefaultLabel(_) => Some(Operand::Zero),
                ConsolePlan::Spread(_) => Some(Operand::Zero),
                _ => Some(Operand::Tag(JsTag::Undefined)),
            }
        },
        CallConsolePlan::Trace => {
            let a = vec![(Ty::Double, copy_operand(&lowered_args[0]))];
            assert(args_view(a@) =~= seq![(Ty::Double, vv[0])]);
            emit_void(b, "js_console_trace", a);
            Some(Operand::Tag(JsTag::Undefined))
        },
        CallConsolePlan::Table => {
            let a = vec![(Ty::Double, copy_operand(&lowered_args[0]))];
            assert(args_view(a@) =~= seq![(Ty::Double, vv[0])]);
            emit_void(b, "js_console_table", a);
            Some(Operand::Zero)
        },
        CallConsolePlan::Dir => {
            let a = vec![(Ty::Double, copy_operand(&lowered_args[0]))];
            assert(args_view(a@) =~= seq![(Ty::Double, vv[0])]);
            emit_void(b, "js_console_log_dynamic", a);
            Some(Operand::Tag(JsTag::Undefined))
        },
        CallConsolePlan::Single { stream, number } => {
            let a = vec![(Ty::Double, copy_operand(&lowered_args[0]))];
            assert(args_view(a@) =~= seq![(Ty::Double, vv[0])]);
            emit_void(b, single_runtime(stream, number), a);
            Some(Operand::Zero)
        },
        CallConsolePlan::LabelValue(op) => {
            let ghost pre = b@;
            let r = b.peek_reg();
            let a = vec![(Ty::Double, copy_operand(&lowered_args[0]))];
            let h = vec![(Ty::I64, Operand::Reg(r))];
            assert(args_view(a@) =~= seq![(Ty::Double, vv[0])]);
            assert(args_view(h@) =~= seq![(Ty::I64, OperandV::Reg(r))]);
            let insts = vec![
                Inst::Call { dest: Some(r), ret: Ty::I64, callee: String::from_str("js_get_string_pointer_unified"), args: a },
                Inst::Call { dest: None, ret: Ty::Void, callee: String::from_str(label_runtime(op, false)), args: h },
            ];
            assert(crate::ir::insts_view(insts@) =~= seq![
                InstV::Call { dest: Some(r), ret: Ty::I64, callee: "js_get_string_pointer_unified"@, args: seq![(Ty::Double, vv[0])] },
                void_call(label_name(op, false), seq![(Ty::I64, OperandV::Reg(r))]),
            ]);
            b.reserve_regs(1);
            b.push_all(insts);
            Some(Operand::Zero)
        },
        CallConsolePlan::Assert => {
            if lowered_args.len() == 2 {
                let r = b.peek_reg();
                let a = vec![(Ty::Double, copy_operand(&lowered_args[1]))];
                let c = vec![(Ty::Double, copy_operand(&lowered_args[0])), (Ty::I64, Operand::Reg(r))];
                assert(args_view(a@) =~= seq![(Ty::Double, vv[1])]);
                assert(args_view(c@) =~= seq![(Ty::Double, vv[0]), (Ty::I64, OperandV::Reg(r))]);
                let insts = vec![
                    Inst::Call { dest: Some(r), ret: Ty::I64, callee: String::from_str("js_get_string_pointer_unified"), args: a },
                    Inst::Call { dest: None, ret: Ty::Void, callee: String::from_str("js_console_assert"), args: c },
                ];
                assert(crate::ir::insts_view(insts@) =~= seq![
                    InstV::Call { dest: Some(r), ret: Ty::I64, callee: "js_get_string_pointer_unified"@, args: seq![(Ty::Double, vv[1])] },
                    void_call("js_console_assert"@, seq![(Ty::Double, vv[0]), (Ty::I64, OperandV::Reg(r))]),
                ]);
                b.reserve_regs(1);
                b.push_all(insts);
            } else {
                let c = vec![(Ty::Double, arg_or_undef(lowered_args, 0)), (Ty::I64, Operand::Int(0))];
                assert(args_view(c@) =~= seq![(Ty::Double, arg_or_undefined(vv, 0)), (Ty::I64, OperandV::Int(0))]);
                emit_void(b, "js_console_assert", c);
            }
            Some(Operand::Tag(JsTag::Undefined))
        },
    }
}

/// A general call's console arm lowers exactly the calls the console
/// route sends it: the console methods, whatever the arguments.
pub proof fn law_call_console_covers_console_route(p: Seq<char>, n: nat, number: bool)
    ensures
        (console_plan_spec(p, n) is Some) == (call_console_plan_spec(p, n, number) is Some),
        (console_plan_spec(p, n) is Some) == is_console_method(p),
{
}


/// A printing method writes through the spread printer of its own name
/// (`console.<s>(...)` calls `js_console_<s>_spread` for `log`, `info`,
/// `debug`, `warn` and `error`), and a timer/counter operation on a label
/// value calls its string-label runtime function with `_value` appended.
pub proof fn law_console_runtime_names(p: Seq<char>)
    ensures
        (p == "log"@ || p == "info"@ || p == "debug"@ || p == "warn"@ || p == "error"@) ==> spread_name(stream_spec(p))
            == "js_console_"@ + p + "_spread"@,
        label_op_spec(p) matches Some(op) ==> label_name(op, true) == label_name(op, false) + "_value"@,
        (p == "time"@ || p == "count"@) ==> (label_op_spec(p) matches Some(op) && label_name(op, false) == "js_console_"@ + p),
{
    reveal_strlit("js_console_");
    reveal_strlit("_spread");
    reveal_strlit("_value");
    reveal_strlit("log");
    reveal_strlit("js_console_log_spread");
    assert("js_console_log_spread"@ =~= "js_console_"@ + "log"@ + "_spread"@);
    reveal_strlit("info");
    reveal_strlit("js_console_info_spread");
    assert("js_console_info_spread"@ =~= "js_console_"@ + "info"@ + "_spread"@);
    reveal_strlit("debug");
    reveal_strlit("js_console_debug_spread");
    assert("js_console_debug_spread"@ =~= "js_console_"@ + "debug"@ + "_spread"@);
    reveal_strlit("warn");
    reveal_strlit("js_console_warn_spread");
    assert("js_console_warn_spread"@ =~= "js_console_"@ + "warn"@ + "_spread"@);
    reveal_strlit("error");
    reveal_strlit("js_console_error_spread");
    assert("js_console_error_spread"@ =~= "js_console_"@ + "error"@ + "_spread"@);
    reveal_strlit("time");
    reveal_strlit("js_console_time");
    reveal_strlit("js_console_time_value");
    assert("js_console_time_value"@ =~= "js_console_time"@ + "_value"@);
    reveal_strlit("timeEnd");
    reveal_strlit("js_console_time_end");
    reveal_strlit("js_console_time_end_value");
    assert("js_console_time_end_value"@ =~= "js_console_time_end"@ + "_value"@);
    reveal_strlit("timeLog");
    reveal_strlit("js_console_time_log");
    reveal_strlit("js_console_time_log_value");
    assert("js_console_time_log_value"@ =~= "js_console_time_log"@ + "_value"@);
    reveal_strlit("count");
    reveal_strlit("js_console_count");
    reveal_strlit("js_console_count_value");
    assert("js_console_count_value"@ =~= "js_console_count"@ + "_value"@);
    reveal_strlit("countReset");
    reveal_strlit("js_console_count_reset");
    reveal_strlit("js_console_count_reset_value");
    assert("js_console_count_reset_value"@ =~= "js_console_count_reset"@ + "_value"@);
    assert("js_console_time"@ =~= "js_console_"@ + "time"@);
    assert("js_console_count"@ =~= "js_console_"@ + "count"@);
}

} // verus!
