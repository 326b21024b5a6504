//! `new C(...)` of the built-in classes the runtime constructs itself
//! (`ArrayBuffer`, `Array`, `RegExp`, `EventEmitter`, `pg` `Client`/`Pool`,
//! `Promise`, ...), and
//! the guard against an ambiguous name imported from an unrelated package.

use vstd::prelude::*;

use crate::ir::{args_view, copy_operand, insts_view, operands_view, Arg, DeclareV, FnBuilder, FnBuilderV, Inst, InstV, JsTag, Operand, OperandV, Ty};
use crate::text::{opt_view, str_eq};

verus! {

/// Whether a built-in constructor arm must not fire because `class_name`
/// was imported from a package other than the one the arm is for.
pub open spec fn arm_mismatches_source_spec(class_name: Seq<char>, import_src: Option<Seq<char>>) -> bool {
    match import_src {
        None => false,
        Some(src) => if class_name == "Client"@ || class_name == "Pool"@ {
            src != "pg"@
        } else if class_name == "Database"@ {
            src != "better-sqlite3"@
        } else if class_name == "Redis"@ {
            src != "ioredis"@ && src != "redis"@
        } else if class_name == "MongoClient"@ {
            src != "mongodb"@
        } else if class_name == "Decimal"@ {
            src != "decimal.js"@
        } else {
            false
        },
    }
}

/// Whether a built-in constructor arm must not fire because `class_name`
/// was imported (from `import_src`) from an unrelated package.
pub fn arm_mismatches_source(class_name: &str, import_src: Option<&str>) -> (res: bool)
    ensures
        res == arm_mismatches_source_spec(class_name@, opt_view(import_src)),
{
    match import_src {
        None => false,
        Some(src) => if str_eq(class_name, "Client") || str_eq(class_name, "Pool") {
            !str_eq(src, "pg")
        } else if str_eq(class_name, "Database") {
            !str_eq(src, "better-sqlite3")
        } else if str_eq(class_name, "Redis") {
            !str_eq(src, "ioredis") && !str_eq(src, "redis")
        } else if str_eq(class_name, "MongoClient") {
            !str_eq(src, "mongodb")
        } else if str_eq(class_name, "Decimal") {
            !str_eq(src, "decimal.js")
        } else {
            false
        },
    }
}

/// Where a constructor argument comes from.
#[derive(Copy, Clone, Debug, PartialEq, Eq, Structural)]
pub enum CtorArg {
    /// Argument `i` as a `double`, `undefined` when absent.
    Value(usize),
    /// Argument `i` unboxed to an `i64` handle, `undefined` when absent.
    Handle(usize),
    /// Argument `i` unboxed to an `i64` handle, `0.0` when absent.
    HandleOrZero(usize),
    /// The raw string pointer of argument `i`, `0` when absent.
    StrPtr(usize),
    /// The `i64` constant `0`.
    Zero,
    /// Argument `i` converted to `i32` (`fptosi`), `0.0` when absent.
    I32Of(usize),
}

/// How a built-in class is constructed: its runtime constructor, the
/// constructor's arguments, whether the result is a pointer to NaN-box (or
/// a JS value), and whether the constructor is declared at the call site.
pub struct BuiltinCtorV {
    pub runtime: Seq<char>,
    pub args: Seq<CtorArg>,
    pub boxed: bool,
    pub declared: bool,
}

/// A built-in constructor, as the lowering carries it.
#[derive(Clone, Debug)]
pub struct BuiltinCtor {
    pub runtime: &'static str,
    pub args: Vec<CtorArg>,
    pub boxed: bool,
    pub declared: bool,
}

impl View for BuiltinCtor {
    type V = BuiltinCtorV;

    open spec fn view(&self) -> BuiltinCtorV {
        BuiltinCtorV { runtime: self.runtime@, args: self.args@, boxed: self.boxed, declared: self.declared }
    }
}

/// Shorthand for a constructor view.
pub open spec fn ctor(runtime: Seq<char>, args: Seq<CtorArg>, boxed: bool, declared: bool) -> Option<BuiltinCtorV> {
    Some(BuiltinCtorV { runtime, args, boxed, declared })
}

/// The built-in constructor of `new class_name(args)` with `n` arguments,
/// among those lowered as a plain runtime call.
pub open spec fn builtin_ctor_spec(c: Seq<char>, n: nat) -> Option<BuiltinCtorV> {
    if c == "ArrayBuffer"@ {
        ctor("js_array_buffer_new"@, seq![CtorArg::I32Of(0)], true, false)
    } else if c == "RegExp"@ {
        ctor("js_regexp_new"@, seq![CtorArg::HandleOrZero(0), CtorArg::HandleOrZero(1)], true, false)
    } else if c == "Command"@ {
        ctor("js_commander_new"@, seq![], true, false)
    } else if c == "EventEmitter"@ {
        ctor("js_event_emitter_new"@, seq![], true, false)
    } else if c == "StringDecoder"@ {
        ctor("js_string_decoder_new"@, seq![CtorArg::Handle(0)], true, false)
    } else if c == "Readable"@ {
        ctor("js_node_stream_readable_new"@, seq![CtorArg::Value(0)], false, false)
    } else if c == "Writable"@ {
        ctor("js_node_stream_writable_new"@, seq![CtorArg::Value(0)], false, false)
    } else if c == "Duplex"@ {
        ctor("js_node_stream_duplex_new"@, seq![CtorArg::Value(0)], false, false)
    } else if c == "Transform"@ {
        ctor("js_node_stream_transform_new"@, seq![CtorArg::Value(0)], false, false)
    } else if c == "PassThrough"@ {
        ctor("js_node_stream_passthrough_new"@, seq![CtorArg::Value(0)], false, false)
    } else if c == "Client"@ {
        ctor("js_pg_client_new"@, seq![CtorArg::Value(0)], true, false)
    } else if c == "Pool"@ {
        ctor("js_pg_pool_new"@, seq![CtorArg::Value(0)], true, false)
    } else if c == "Database"@ {
        ctor("js_sqlite_open"@, seq![CtorArg::StrPtr(0)], true, false)
    } else if c == "MongoClient"@ {
        ctor("js_mongodb_client_new"@, seq![CtorArg::StrPtr(0)], true, false)
    } else if c == "Redis"@ {
        ctor("js_ioredis_new"@, seq![CtorArg::Zero], true, false)
    } else if c == "AsyncLocalStorage"@ {
        ctor("js_async_local_storage_new"@, seq![], true, false)
    } else if c == "AsyncResource"@ {
        ctor("js_async_resource_new"@, seq![CtorArg::Value(0), CtorArg::Value(1)], true, false)
    } else if c == "Decimal"@ {
        ctor("js_decimal_coerce_to_handle"@, seq![CtorArg::Value(0)], true, false)
    } else if c == "Array"@ {
        if n == 0 {
            ctor("js_array_create"@, seq![], true, false)
        } else if n == 1 {
            ctor("js_array_alloc_with_length"@, seq![CtorArg::I32Of(0)], true, false)
        } else {
            None
        }
    } else if c == "Promise"@ {
        if n == 0 {
            ctor("js_promise_new"@, seq![], true, false)
        } else {
            ctor("js_promise_new_with_executor"@, seq![CtorArg::Handle(0)], true, false)
        }
    } else if c == "WeakMap"@ {
        ctor("js_weakmap_new"@, seq![], true, false)
    } else if c == "WeakSet"@ {
        ctor("js_weakset_new"@, seq![], true, false)
    } else if c == "AbortController"@ {
        ctor("js_abort_controller_new"@, seq![], true, false)
    } else if c == "WebSocketServer"@ {
        ctor("js_ws_server_new"@, seq![CtorArg::Value(0)], true, true)
    } else {
        None
    }
}

fn args0() -> (v: Vec<CtorArg>)
    ensures
        v@ == Seq::<CtorArg>::empty(),
{
    Vec::new()
}

fn args1(a: CtorArg) -> (v: Vec<CtorArg>)
    ensures
        v@ == seq![a],
{
    let mut v = Vec::new();
    v.push(a);
    assert(v@ =~= seq![a]);
    v
}

fn args2(a: CtorArg, c: CtorArg) -> (v: Vec<CtorArg>)
    ensures
        v@ == seq![a, c],
{
    let mut v = Vec::new();
    v.push(a);
    v.push(c);
    assert(v@ =~= seq![a, c]);
    v
}

fn mk(runtime: &'static str, args: Vec<CtorArg>, boxed: bool, declared: bool) -> (res: Option<BuiltinCtor>)
    ensures
        res matches Some(c) && c@ == (BuiltinCtorV { runtime: runtime@, args: args@, boxed, declared }),
{
    Some(BuiltinCtor { runtime, args, boxed, declared })
}

/// The built-in constructor of `new class_name(args)` with `n` arguments,
/// if it is one lowered as a plain runtime call.
pub fn builtin_ctor(c: &str, n: usize) -> (res: Option<BuiltinCtor>)
    ensures
        match (res, builtin_ctor_spec(c@, n as nat)) {
            (Some(x), Some(s)) => x@ == s,
            (None, None) => true,
            _ => false,
        },
{
    if str_eq(c, "ArrayBuffer") {
        mk("js_array_buffer_new", args1(CtorArg::I32Of(0)), true, false)
    } else if str_eq(c, "RegExp") {
        mk("js_regexp_new", args2(CtorArg::HandleOrZero(0), CtorArg::HandleOrZero(1)), true, false)
    } else if str_eq(c, "Command") {
        mk("js_commander_new", args0(), true, false)
    } else if str_eq(c, "EventEmitter") {
        mk("js_event_emitter_new", args0(), true, false)
    } else if str_eq(c, "StringDecoder") {
        mk("js_string_decoder_new", args1(CtorArg::Handle(0)), true, false)
    } else if str_eq(c, "Readable") {
        mk("js_node_stream_readable_new", args1(CtorArg::Value(0)), false, false)
    } else if str_eq(c, "Writable") {
        mk("js_node_stream_writable_new", args1(CtorArg::Value(0)), false, false)
    } else if str_eq(c, "Duplex") {
        mk("js_node_stream_duplex_new", args1(CtorArg::Value(0)), false, false)
    } else if str_eq(c, "Transform") {
        mk("js_node_stream_transform_new", args1(CtorArg::Value(0)), false, false)
    } else if str_eq(c, "PassThrough") {
        mk("js_node_stream_passthrough_new", args1(CtorArg::Value(0)), false, false)
    } else if str_eq(c, "Client") {
        mk("js_pg_client_new", args1(CtorArg::Value(0)), true, false)
    } else if str_eq(c, "Pool") {
        mk("js_pg_pool_new", args1(CtorArg::Value(0)), true, false)
    } else if str_eq(c, "Database") {
        mk("js_sqlite_open", args1(CtorArg::StrPtr(0)), true, false)
    } else if str_eq(c, "MongoClient") {
        mk("js_mongodb_client_new", args1(CtorArg::StrPtr(0)), true, false)
    } else if str_eq(c, "Redis") {
        mk("js_ioredis_new", args1(CtorArg::Zero), true, false)
    } else if str_eq(c, "AsyncLocalStorage") {
        mk("js_async_local_storage_new", args0(), true, false)
    } else if str_eq(c, "AsyncResource") {
        mk("js_async_resource_new", args2(CtorArg::Value(0), CtorArg::Value(1)), true, false)
    } else if str_eq(c, "Decimal") {
        mk("js_decimal_coerce_to_handle", args1(CtorArg::Value(0)), true, false)
    } else if str_eq(c, "Array") {
        if n == 0 {
            mk("js_array_create", args0(), true, false)
        } else if n == 1 {
            mk("js_array_alloc_with_length", args1(CtorArg::I32Of(0)), true, false)
        } else {
            None
        }
    } else if str_eq(c, "Promise") {
        if n == 0 {
            mk("js_promise_new", args0(), true, false)
        } else {
            mk("js_promise_new_with_executor", args1(CtorArg::Handle(0)), true, false)
        }
    } else if str_eq(c, "WeakMap") {
        mk("js_weakmap_new", args0(), true, false)
    } else if str_eq(c, "WeakSet") {
        mk("js_weakset_new", args0(), true, false)
    } else if str_eq(c, "AbortController") {
        mk("js_abort_controller_new", args0(), true, false)
    } else if str_eq(c, "WebSocketServer") {
        mk("js_ws_server_new", args1(CtorArg::Value(0)), true, true)
    } else {
        None
    }
}

/// The value of argument `i`, or `default` when absent.
pub open spec fn arg_or(vals: Seq<OperandV>, i: int, default: OperandV) -> OperandV {
    if 0 <= i < vals.len() {
        vals[i]
    } else {
        default
    }
}

/// The instructions and typed arguments of the constructor arguments
/// `cargs` from register `r`: `(instructions, arguments, next register)`.
pub open spec fn ctor_args(cargs: Seq<CtorArg>, vals: Seq<OperandV>, r: int) -> (Seq<InstV>, Seq<(Ty, OperandV)>, int)
    decreases cargs.len(),
{
    if cargs.len() == 0 {
        (Seq::empty(), Seq::empty(), r)
    } else {
        let (pi, pa, q) = ctor_args(cargs.drop_last(), vals, r);
        let undef = OperandV::Tag(JsTag::Undefined);
        match cargs.last() {
            CtorArg::Value(i) => (pi, pa.push((Ty::Double, arg_or(vals, i as int, undef))), q),
            CtorArg::Handle(i) => (
                pi.push(InstV::UnboxToI64 { dest: q as u64, val: arg_or(vals, i as int, undef) }),
                pa.push((Ty::I64, OperandV::Reg(q as u64))),
                q + 1,
            ),
            CtorArg::HandleOrZero(i) => (
                pi.push(InstV::UnboxToI64 { dest: q as u64, val: arg_or(vals, i as int, OperandV::Zero) }),
                pa.push((Ty::I64, OperandV::Reg(q as u64))),
                q + 1,
            ),
            CtorArg::StrPtr(i) => if 0 <= i < vals.len() {
                (
                    pi.push(
                        InstV::Call {
                            dest: Some(q as u64),
                            ret: Ty::I64,
                            callee: "js_get_string_pointer_unified"@,
                            args: seq![(Ty::Double, vals[i as int])],
                        },
                    ),
                    pa.push((Ty::I64, OperandV::Reg(q as u64))),
                    q + 1,
                )
            } else {
                (pi, pa.push((Ty::I64, OperandV::Int(0))), q)
            },
            CtorArg::Zero => (pi, pa.push((Ty::I64, OperandV::Int(0))), q),
            CtorArg::I32Of(i) => (
                pi.push(InstV::Fptosi { dest: q as u64, to: Ty::I32, val: arg_or(vals, i as int, OperandV::Zero) }),
                pa.push((Ty::I32, OperandV::Reg(q as u64))),
                q + 1,
            ),
        }
    }
}

proof fn lemma_ctor_args_regs(cargs: Seq<CtorArg>, vals: Seq<OperandV>, r: int)
    ensures
        r <= ctor_args(cargs, vals, r).2 <= r + cargs.len(),
    decreases cargs.len(),
{
    if cargs.len() > 0 {
        lemma_ctor_args_regs(cargs.drop_last(), vals, r);
    }
}

/// The function state and result of constructing a built-in per `c` from
/// `pre`: the argument instructions, the constructor call (declared when
/// `c.declared`), and the NaN-boxing of a pointer result.
pub open spec fn builtin_ctor_result(pre: FnBuilderV, c: BuiltinCtorV, vals: Seq<OperandV>) -> (FnBuilderV, OperandV) {
    let (ai, args, q) = ctor_args(c.args, vals, pre.next_reg);
    let declares = if c.declared {
        pre.declares.push(
            DeclareV { name: c.runtime, ret: Ty::I64, params: args.map_values(|a: (Ty, OperandV)| a.0) },
        )
    } else {
        pre.declares
    };
    if c.boxed {
        (
            (FnBuilderV { next_reg: q + 2, declares, ..pre }).append_cur(
                ai + seq![
                    InstV::Call { dest: Some(q as u64), ret: Ty::I64, callee: c.runtime, args },
                    InstV::NanboxPointer { dest: (q + 1) as u64, val: OperandV::Reg(q as u64) },
                ],
            ),
            OperandV::Reg((q + 1) as u64),
        )
    } else {
        (
            (FnBuilderV { next_reg: q + 1, declares, ..pre }).append_cur(
                ai + seq![InstV::Call { dest: Some(q as u64), ret: Ty::Double, callee: c.runtime, args }],
            ),
            OperandV::Reg(q as u64),
        )
    }
}

/// The argument `i`, or `default` when absent.
fn arg_or_exec(vals: &Vec<Operand>, i: usize, default: Operand) -> (res: Operand)
    ensures
        res@ == arg_or(operands_view(vals@), i as int, default@),
{
    if i < vals.len() {
        copy_operand(&vals[i])
    } else {
        default
    }
}

/// Builds the instructions and typed arguments of `cargs` from register
/// `r`.
fn build_ctor_args(cargs: &Vec<CtorArg>, vals: &Vec<Operand>, r: u64) -> (res: (Vec<Inst>, Vec<Arg>, u64))
    requires
        r + cargs@.len() <= u64::MAX,
    ensures
        ({
            let (ai, args, q) = ctor_args(cargs@, operands_view(vals@), r as int);
            &&& insts_view(res.0@) == ai
            &&& args_view(res.1@) == args
            &&& res.2 == q
        }),
{
    let ghost vv = operands_view(vals@);
    let mut insts: Vec<Inst> = Vec::new();
    let mut args: Vec<Arg> = Vec::new();
    let mut q = r;
    let mut k: usize = 0;
    while k < cargs.len()
        invariant
            k <= cargs@.len(),
            r + cargs@.len() <= u64::MAX,
            vv == operands_view(vals@),
            ({
                let (ai, aa, qq) = ctor_args(cargs@.take(k as int), vv, r as int);
                &&& insts_view(insts@) == ai
                &&& args_view(args@) == aa
                &&& q == qq
            }),
            q <= r + k,
        decreases cargs@.len() - k,
    {
        let ghost t = cargs@.take(k + 1);
        assert(t.drop_last() =~= cargs@.take(k as int));
        assert(t.last() == cargs@[k as int]);
        let ghost pi = insts@;
        let ghost pa = args@;
        match cargs[k] {
            CtorArg::Value(i) => {
                args.push((Ty::Double, arg_or_exec(vals, i, Operand::Tag(JsTag::Undefined))));
                assert(args_view(args@) =~= args_view(pa).push(args_view(args@).last()));
            },
            CtorArg::Handle(i) => {
                insts.push(Inst::UnboxToI64 { dest: q, val: arg_or_exec(vals, i, Operand::Tag(JsTag::Undefined)) });
                args.push((Ty::I64, Operand::Reg(q)));
                assert(insts_view(insts@) =~= insts_view(pi).push(insts_view(insts@).last()));
                assert(args_view(args@) =~= args_view(pa).push((Ty::I64, OperandV::Reg(q))));
                q = q + 1;
            },
            CtorArg::HandleOrZero(i) => {
                insts.push(Inst::UnboxToI64 { dest: q, val: arg_or_exec(vals, i, Operand::Zero) });
                args.push((Ty::I64, Operand::Reg(q)));
                assert(insts_view(insts@) =~= insts_view(pi).push(insts_view(insts@).last()));
                assert(args_view(args@) =~= args_view(pa).push((Ty::I64, OperandV::Reg(q))));
                q = q + 1;
            },
            CtorArg::StrPtr(i) => {
                if i < vals.len() {
                    let ghost v = vv[i as int];
                    let a = vec![(Ty::Double, copy_operand(&vals[i]))];
                    assert(args_view(a@) =~= seq![(Ty::Double, v)]);
                    insts.push(Inst::Call {
                        dest: Some(q),
                        ret: Ty::I64,
                        callee: String::from_str("js_get_string_pointer_unified"),
                        args: a,
                    });
                    args.push((Ty::I64, Operand::Reg(q)));
                    assert(insts_view(insts@) =~= insts_view(pi).push(insts_view(insts@).last()));
                    assert(args_view(args@) =~= args_view(pa).push((Ty::I64, OperandV::Reg(q))));
                    q = q + 1;
                } else {
                    args.push((Ty::I64, Operand::Int(0)));
                    assert(args_view(args@) =~= args_view(pa).push((Ty::I64, OperandV::Int(0))));
                }
            },
            CtorArg::I32Of(i) => {
                insts.push(Inst::Fptosi { dest: q, to: Ty::I32, val: arg_or_exec(vals, i, Operand::Zero) });
                args.push((Ty::I32, Operand::Reg(q)));
                assert(insts_view(insts@) =~= insts_view(pi).push(insts_view(insts@).last()));
                assert(args_view(args@) =~= args_view(pa).push((Ty::I32, OperandV::Reg(q))));
                q = q + 1;
            },
            CtorArg::Zero => {
                args.push((Ty::I64, Operand::Int(0)));
                assert(args_view(args@) =~= args_view(pa).push((Ty::I64, OperandV::Int(0))));
            },
        }
        k = k + 1;
    }
    assert(cargs@.take(cargs@.len() as int) =~= cargs@);
    (insts, args, q)
}

/// The parameter types of the typed arguments.
fn param_types(args: &Vec<Arg>) -> (tys: Vec<Ty>)
    ensures
        tys@ == args_view(args@).map_values(|a: (Ty, OperandV)| a.0),
{
    let mut tys: Vec<Ty> = Vec::new();
    let mut i: usize = 0;
    while i < args.len()
        invariant
            i <= args@.len(),
            tys@ =~= args_view(args@).take(i as int).map_values(|a: (Ty, OperandV)| a.0),
        decreases args@.len() - i,
    {
        tys.push(args[i].0);
        proof {
            assert(args_view(args@).take(i + 1) =~= args_view(args@).take(i as int).push(args_view(args@)[i as int]));
        }
        i = i + 1;
    }
    assert(args_view(args@).take(args@.len() as int) =~= args_view(args@));
    tys
}

/// Lowers `new class_name(args)` for a built-in class the runtime
/// constructs itself (see `builtin_ctor`), unless the name was imported
/// (`import_src`) from a package other than the arm's; `lowered_args` are
/// the lowered arguments. `None`, with nothing emitted, when no such
/// constructor applies.
pub fn lower_builtin_new(
    b: &mut FnBuilder,
    class_name: &str,
    import_src: Option<&str>,
    lowered_args: &Vec<Operand>,
) -> (res: Option<Operand>)
    requires
        old(b)@.wf(),
        old(b)@.next_reg + 4 <= u64::MAX,
    ensures
        ({
            let vals = operands_view(lowered_args@);
            if arm_mismatches_source_spec(class_name@, opt_view(import_src)) {
                res is None && final(b)@ == old(b)@
            } else {
                match builtin_ctor_spec(class_name@, vals.len()) {
                    None => res is None && final(b)@ == old(b)@,
                    Some(c) => {
                        let (post, result) = builtin_ctor_result(old(b)@, c, vals);
                        res matches Some(o) && o@ == result && final(b)@ == post
                    },
                }
            }
        }),
        final(b)@.wf(),
{
    if arm_mismatches_source(class_name, import_src) {
        return None;
    }
    let c = match builtin_ctor(class_name, lowered_args.len()) {
        Some(c) => c,
        None => return None,
    };
    let ghost pre = b@;
    let ghost vv = operands_view(lowered_args@);
    let r = b.peek_reg();
    assert(c.args@.len() <= 2);
    proof {
        lemma_ctor_args_regs(c.args@, vv, r as int);
    }
    let (mut insts, args, q) = build_ctor_args(&c.args, lowered_args, r);
    let ghost ai = insts_view(insts@);
    let ghost av = args_view(args@);
    if c.declared {
        b.declare(c.runtime, Ty::I64, param_types(&args));
    }
    let ghost s1 = b@;
    let res = if c.boxed {
        insts.push(Inst::Call { dest: Some(q), ret: Ty::I64, callee: String::from_str(c.runtime), args });
        insts.push(Inst::NanboxPointer { dest: q + 1, val: Operand::Reg(q) });
        assert(insts_view(insts@) =~= ai + seq![
            InstV::Call { dest: Some(q), ret: Ty::I64, callee: c.runtime@, args: av },
            InstV::NanboxPointer { dest: (q + 1) as u64, val: OperandV::Reg(q) },
        ]);
        b.reserve_regs(q + 2 - r);
        b.push_all(insts);
        Operand::Reg(q + 1)
    } else {
        insts.push(Inst::Call { dest: Some(q), ret: Ty::Double, callee: String::from_str(c.runtime), args });
        assert(insts_view(insts@) =~= ai + seq![InstV::Call { dest: Some(q), ret: Ty::Double, callee: c.runtime@, args: av }]);
        b.reserve_regs(q + 1 - r);
        b.push_all(insts);
        Operand::Reg(q)
    };
    Some(res)
}

/// The value of the last property `max` of an options literal, as
/// `(key, lowered value)` pairs, or `100.0` when there is none.
pub open spec fn last_max(props: Seq<(String, Operand)>) -> OperandV
    decreases props.len(),
{
    if props.len() == 0 {
        OperandV::Num(100)
    } else if props.last().0@ == "max"@ {
        props.last().1@
    } else {
        last_max(props.drop_last())
    }
}

/// The capacity `new LRUCache(options)` is created with: the options
/// literal's last `max` (see `last_max`), or `100.0` when the first
/// argument is absent or not an inline object literal.
pub open spec fn lru_capacity(options: Option<Seq<(String, Operand)>>) -> OperandV {
    match options {
        Some(props) => last_max(props),
        None => OperandV::Num(100),
    }
}

/// Lowers `new LRUCache(options)`: `js_lru_cache_new` with the capacity
/// (see `lru_capacity`; `options` are the first argument's properties
/// with their lowered values when it is an inline object literal), its
/// handle NaN-boxed as a pointer.
pub fn lower_new_lru_cache(b: &mut FnBuilder, options: Option<&Vec<(String, Operand)>>) -> (res: Operand)
    requires
        old(b)@.wf(),
        old(b)@.next_reg + 2 <= u64::MAX,
    ensures
        ({
            let r = old(b)@.next_reg;
            let cap = lru_capacity(match options { Some(p) => Some(p@), None => None });
            &&& res@ == OperandV::Reg((r + 1) as u64)
            &&& final(b)@ == (FnBuilderV { next_reg: r + 2, ..old(b)@ }).append_cur(
                seq![
                    InstV::Call { dest: Some(r as u64), ret: Ty::I64, callee: "js_lru_cache_new"@, args: seq![(Ty::Double, cap)] },
                    InstV::NanboxPointer { dest: (r + 1) as u64, val: OperandV::Reg(r as u64) },
                ],
            )
        }),
        final(b)@.wf(),
{
    let cap = match options {
        Some(props) => {
            let mut found = Operand::Num(100);
            let mut k: usize = 0;
            assert(props@.take(0) =~= Seq::<(String, Operand)>::empty());
            while k < props.len()
                invariant
                    k <= props@.len(),
                    found@ == last_max(props@.take(k as int)),
                decreases props@.len() - k,
            {
                let ghost t = props@.take(k + 1);
                assert(t.drop_last() =~= props@.take(k as int));
                assert(t.last() == props@[k as int]);
                if str_eq(props[k].0.as_str(), "max") {
                    found = copy_operand(&props[k].1);
                }
                k = k + 1;
            }
            assert(props@.take(props@.len() as int) =~= props@);
            found
        },
        None => Operand::Num(100),
    };
    let ghost cv = cap@;
    let r = b.peek_reg();
    b.reserve_regs(2);
    let args = vec![(Ty::Double, cap)];
    assert(args_view(args@) =~= seq![(Ty::Double, cv)]);
    let insts = vec![
        Inst::Call { dest: Some(r), ret: Ty::I64, callee: String::from_str("js_lru_cache_new"), args },
        Inst::NanboxPointer { dest: r + 1, val: Operand::Reg(r) },
    ];
    assert(insts_view(insts@) =~= seq![
        InstV::Call { dest: Some(r), ret: Ty::I64, callee: "js_lru_cache_new"@, args: seq![(Ty::Double, cv)] },
        InstV::NanboxPointer { dest: (r + 1) as u64, val: OperandV::Reg(r) },
    ]);
    b.push_all(insts);
    Operand::Reg(r + 1)
}

} // verus!
