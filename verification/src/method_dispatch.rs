//! The generic tails of call lowering: `recv.method(args)` through the
//! runtime's universal method dispatcher, and any other callee called as a
//! closure value, with the method receiver bound as `this`.

use vstd::prelude::*;

use crate::closure_call::{closure_args, closure_call_runtime, closure_call_runtime_spec, set_this, LowerError, MAX_CLOSURE_ARGS};
use crate::hir::Expr;
use crate::ir::{args_view, copy_operand, insts_view, operands_view, FnBuilder, FnBuilderV, Inst, InstV, Operand, OperandV, Ty};
use crate::marshal::{emit_stack_args, stack_args_ptr, stack_args_result};
use crate::override_check::{intern_index, intern_strings};
use crate::text::{str_eq, opt_view};

verus! {

/// What the type analysis knows of a method call's receiver.
#[derive(Clone, Debug)]
pub struct ReceiverFacts {
    /// The receiver's static class, if known.
    pub class_name: Option<String>,
    /// That class is one this compilation has the definition of.
    pub class_known: bool,
}

/// Whether a receiver class is a byte buffer (dispatched by the runtime's
/// buffer method family).
pub open spec fn is_buffer_class_spec(c: Option<Seq<char>>) -> bool {
    c == Some("Uint8Array"@) || c == Some("Buffer"@) || c == Some("Uint8ClampedArray"@)
}

/// `Object.prototype` methods any instance can reach.
pub open spec fn is_well_known_proto_method(p: Seq<char>) -> bool {
    p == "hasOwnProperty"@ || p == "propertyIsEnumerable"@ || p == "isPrototypeOf"@ || p == "toLocaleString"@
        || p == "valueOf"@
}

/// Whether `recv.property(args)` goes through the universal method
/// dispatcher: not on a global or a native module, and not on an instance
/// of a class this compilation knows (whose methods are dispatched
/// statically), unless the receiver is a byte buffer or the method is a
/// well-known prototype method.
pub open spec fn uses_native_dispatch(object: Expr, property: Seq<char>, class_name: Option<Seq<char>>, class_known: bool) -> bool {
    !(object is GlobalGet) && !(object is NativeModuleRef) && !(class_name is Some && !is_buffer_class_spec(class_name)
        && class_known && !is_well_known_proto_method(property))
}

/// The receiver and method of a call the universal dispatcher handles,
/// with whether the receiver is a byte buffer (whose numeric reads may be
/// intrinsified first).
pub open spec fn native_str_dispatch_target(callee: Expr, facts: ReceiverFacts) -> Option<bool> {
    match callee {
        Expr::PropertyGet { object, property } => {
            let c = match facts.class_name {
                Some(n) => Some(n@),
                None => None,
            };
            if uses_native_dispatch(*object, property@, c, facts.class_known) {
                Some(is_buffer_class_spec(c))
            } else {
                None
            }
        },
        _ => None,
    }
}

/// Whether `callee` takes the universal method dispatch; `Some(is_buffer)`
/// when it does.
pub fn native_str_dispatch_plan(callee: &Expr, facts: &ReceiverFacts) -> (res: Option<bool>)
    ensures
        res == native_str_dispatch_target(*callee, *facts),
{
    match callee {
        Expr::PropertyGet { object, property } => {
            let c: Option<&str> = match &facts.class_name {
                Some(n) => Some(n.as_str()),
                None => None,
            };
            let is_buffer = match c {
                Some(n) => str_eq(n, "Uint8Array") || str_eq(n, "Buffer") || str_eq(n, "Uint8ClampedArray"),
                None => false,
            };
            let p = property.as_str();
            let proto = str_eq(p, "hasOwnProperty") || str_eq(p, "propertyIsEnumerable") || str_eq(p, "isPrototypeOf")
                || str_eq(p, "toLocaleString") || str_eq(p, "valueOf");
            let on_global = match **object {
                Expr::GlobalGet(_) => true,
                Expr::NativeModuleRef(_) => true,
                _ => false,
            };
            let skip = on_global || (c.is_some() && !is_buffer && facts.class_known && !proto);
            assert(opt_view(c) == match facts.class_name {
                Some(n) => Some(n@),
                None => None::<Seq<char>>,
            });
            if skip {
                None
            } else {
                Some(is_buffer)
            }
        },
        _ => None,
    }
}

/// The function state and result of a call through the universal
/// dispatcher, from `pre`: the method name interned, the arguments spilled
/// to an entry-block buffer, and
/// `js_typed_feedback_native_call_method(site, recv, name_bytes, name_len,
/// args, argc)`.
pub open spec fn native_str_dispatch_result(
    pre: FnBuilderV,
    property: Seq<char>,
    name_len: u64,
    site: OperandV,
    recv: OperandV,
    vals: Seq<OperandV>,
) -> (FnBuilderV, OperandV) {
    let s1 = FnBuilderV { strings: intern_strings(pre.strings, property), ..pre };
    let s2 = stack_args_result(s1, vals);
    let r = s2.next_reg;
    (
        (FnBuilderV { next_reg: r + 1, ..s2 }).append_cur(
            seq![
                InstV::Call {
                    dest: Some(r as u64),
                    ret: Ty::Double,
                    callee: "js_typed_feedback_native_call_method"@,
                    args: seq![
                        (Ty::I64, site),
                        (Ty::Double, recv),
                        (Ty::Ptr, OperandV::StrBytes(intern_index(pre.strings, property) as usize)),
                        (Ty::I64, OperandV::Int(name_len)),
                        (Ty::Ptr, stack_args_ptr(s1, vals)),
                        (Ty::I64, OperandV::Int(vals.len() as u64)),
                    ],
                },
            ],
        ),
        OperandV::Reg(r as u64),
    )
}

/// Lowers `recv.method(args)` through the runtime's universal method
/// dispatcher when `callee` takes that path (see `native_str_dispatch_plan`;
/// for a byte-buffer receiver the caller first tries the numeric read
/// intrinsic, see `buffer_read_plan`). `site_id` is the typed-feedback site
/// registered for the call, `recv_box` the lowered receiver and
/// `lowered_args` the lowered arguments. `None`, with nothing emitted, when
/// the call does not take this path.
pub fn try_lower_native_method_str_dispatch(
    b: &mut FnBuilder,
    callee: &Expr,
    facts: &ReceiverFacts,
    site_id: Operand,
    recv_box: Operand,
    lowered_args: &Vec<Operand>,
) -> (res: Option<Operand>)
    requires
        old(b)@.wf(),
        old(b)@.next_reg + lowered_args@.len() + 2 <= u64::MAX,
    ensures
        match (native_str_dispatch_target(*callee, *facts), *callee) {
            (Some(_), Expr::PropertyGet { property, .. }) => {
                let (post, result) = native_str_dispatch_result(
                    old(b)@,
                    property@,
                    pool_byte_len(property@),
                    site_id@,
                    recv_box@,
                    operands_view(lowered_args@),
                );
                res matches Some(o) && o@ == result && final(b)@ == post
            },
            _ => res is None && final(b)@ == old(b)@,
        },
        final(b)@.wf(),
{
    if native_str_dispatch_plan(callee, facts).is_none() {
        return None;
    }
    let property = match callee {
        Expr::PropertyGet { property, .. } => property,
        _ => return None,
    };
    let ghost pre = b@;
    let ghost vv = operands_view(lowered_args@);
    let ghost sv = site_id@;
    let ghost rv = recv_box@;
    let key_idx = b.intern(property.as_str());
    let name_len = byte_len(property.as_str());
    let ghost s1 = b@;
    let args_ptr = emit_stack_args(b, lowered_args);
    let r = b.reserve_regs(1);
    let call_args = vec![
        (Ty::I64, site_id),
        (Ty::Double, recv_box),
        (Ty::Ptr, Operand::StrBytes(key_idx)),
        (Ty::I64, Operand::Int(name_len)),
        (Ty::Ptr, args_ptr),
        (Ty::I64, Operand::Int(lowered_args.len() as u64)),
    ];
    let ghost want = seq![
        (Ty::I64, sv),
        (Ty::Double, rv),
        (Ty::Ptr, OperandV::StrBytes(intern_index(pre.strings, property@) as usize)),
        (Ty::I64, OperandV::Int(pool_byte_len(property@))),
        (Ty::Ptr, stack_args_ptr(s1, vv)),
        (Ty::I64, OperandV::Int(vv.len() as u64)),
    ];
    assert(args_view(call_args@) =~= want);
    let insts = vec![
        Inst::Call {
            dest: Some(r),
            ret: Ty::Double,
            callee: String::from_str("js_typed_feedback_native_call_method"),
            args: call_args,
        },
    ];
    assert(insts_view(insts@) =~= seq![
        InstV::Call { dest: Some(r), ret: Ty::Double, callee: "js_typed_feedback_native_call_method"@, args: want },
    ]);
    b.push_all(insts);
    Some(Operand::Reg(r))
}

/// The length of a string's UTF-8 encoding, as the string pool records it.
pub open spec fn pool_byte_len(s: Seq<char>) -> u64 {
    (vstd::utf8::encode_utf8(s).len() as usize) as u64
}

/// The length of a string's UTF-8 encoding, as the string pool records it.
pub(crate) fn byte_len(s: &str) -> (n: u64)
    ensures
        n == pool_byte_len(s@),
{
    s.len() as u64
}

/// Whether a call of `callee` binds a method receiver as `this`: `callee`
/// reads a property off a user value (not a global, a native module or an
/// imported name).
pub open spec fn binds_method_this(callee: Expr) -> bool {
    match callee {
        Expr::PropertyGet { object, .. } => !(*object is GlobalGet) && !(*object is NativeModuleRef) && !(
        *object is ExternFuncRef),
        _ => false,
    }
}

/// Whether a call of `callee` binds a method receiver as `this`.
pub fn binds_method_this_exec(callee: &Expr) -> (res: bool)
    ensures
        res == binds_method_this(*callee),
{
    match callee {
        Expr::PropertyGet { object, .. } => match **object {
            Expr::GlobalGet(_) => false,
            Expr::NativeModuleRef(_) => false,
            Expr::ExternFuncRef { .. } => false,
            _ => true,
        },
        _ => false,
    }
}

/// The function state and result of calling a closure value, from `pre`:
/// `this` bound to the method receiver (when there is one) around the
/// call; up to sixteen arguments through `js_closure_call<N>`, more through
/// a stack buffer and `js_closure_call_array`.
pub open spec fn closure_fallthrough_result(
    pre: FnBuilderV,
    this_val: Option<OperandV>,
    recv: OperandV,
    vals: Seq<OperandV>,
) -> (FnBuilderV, OperandV) {
    let r = pre.next_reg;
    let n = vals.len();
    let s1 = match this_val {
        Some(t) => (FnBuilderV { next_reg: r + 1, ..pre }).append_cur(seq![set_this(r, t)]),
        None => pre,
    };
    let q = s1.next_reg;
    let (s2, res) = if n <= 16 {
        (
            (FnBuilderV { next_reg: q + 2, ..s1 }).append_cur(
                seq![
                    InstV::UnboxToI64 { dest: q as u64, val: recv },
                    InstV::Call {
                        dest: Some((q + 1) as u64),
                        ret: Ty::Double,
                        callee: closure_call_runtime_spec(n),
                        args: closure_args(OperandV::Reg(q as u64), vals),
                    },
                ],
            ),
            q + 1,
        )
    } else {
        let sp = stack_args_result(s1, vals);
        let h = sp.next_reg;
        (
            (FnBuilderV { next_reg: h + 2, ..sp }).append_cur(
                seq![
                    InstV::UnboxToI64 { dest: h as u64, val: recv },
                    InstV::Call {
                        dest: Some((h + 1) as u64),
                        ret: Ty::Double,
                        callee: "js_closure_call_array"@,
                        args: seq![
                            (Ty::I64, OperandV::Reg(h as u64)),
                            (Ty::Ptr, stack_args_ptr(s1, vals)),
                            (Ty::I64, OperandV::Int(n as u64)),
                        ],
                    },
                ],
            ),
            h + 1,
        )
    };
    let s3 = match this_val {
        Some(_) => (FnBuilderV { next_reg: s2.next_reg + 1, ..s2 }).append_cur(
            seq![set_this(s2.next_reg, OperandV::Reg(r as u64))],
        ),
        None => s2,
    };
    (s3, OperandV::Reg(res as u64))
}

/// Emits `dest = js_implicit_this_set(value)`.
fn emit_set_this(b: &mut FnBuilder, value: Operand) -> (r: u64)
    requires
        old(b)@.wf(),
        old(b)@.next_reg < u64::MAX,
    ensures
        r == old(b)@.next_reg,
        final(b)@ == (FnBuilderV { next_reg: r + 1, ..old(b)@ }).append_cur(seq![set_this(r as int, value@)]),
        final(b)@.wf(),
{
    let ghost v = value@;
    let a = vec![(Ty::Double, value)];
    assert(args_view(a@) =~= seq![(Ty::Double, v)]);
    b.call(Ty::Double, "js_implicit_this_set", a)
}

/// Lowers a call of `callee` as a closure value: `recv_box` is the lowered
/// callee, `this_box` the lowered receiver when the call binds one (see
/// `binds_method_this`) and `lowered_args` the lowered arguments. `this` is
/// bound to the receiver around the call; up to sixteen arguments go
/// through `js_closure_call<N>`, more through an entry-block buffer and
/// `js_closure_call_array`. Yields the call's value.
pub fn try_lower_closure_call_fallthrough(
    b: &mut FnBuilder,
    callee: &Expr,
    this_box: Option<Operand>,
    recv_box: Operand,
    lowered_args: &Vec<Operand>,
) -> (res: Operand)
    requires
        old(b)@.wf(),
        old(b)@.next_reg + lowered_args@.len() + 5 <= u64::MAX,
        this_box is Some <==> binds_method_this(*callee),
    ensures
        ({
            let tv = match this_box {
                Some(t) => Some(t@),
                None => None,
            };
            let (post, result) = closure_fallthrough_result(old(b)@, tv, recv_box@, operands_view(lowered_args@));
            &&& final(b)@ == post
            &&& res@ == result
        }),
        final(b)@.wf(),
{
    let ghost pre = b@;
    let ghost vv = operands_view(lowered_args@);
    let ghost rv = recv_box@;
    let prev_this = match this_box {
        Some(t) => Some(emit_set_this(b, t)),
        None => None,
    };
    let ghost s1 = b@;
    let n = lowered_args.len();
    let result;
    if n <= MAX_CLOSURE_ARGS {
        let q = b.reserve_regs(2);
        let runtime = closure_call_runtime(n);
        let insts = vec![
            Inst::UnboxToI64 { dest: q, val: recv_box },
            Inst::Call {
                dest: Some(q + 1),
                ret: Ty::Double,
                callee: runtime,
                args: crate::closure_call::closure_call_args_pub(Operand::Reg(q), lowered_args),
            },
        ];
        assert(insts_view(insts@) =~= seq![
            InstV::UnboxToI64 { dest: q, val: rv },
            InstV::Call {
                dest: Some((q + 1) as u64),
                ret: Ty::Double,
                callee: closure_call_runtime_spec(n as nat),
                args: closure_args(OperandV::Reg(q), vv),
            },
        ]);
        b.push_all(insts);
        result = q + 1;
    } else {
        let buf = emit_stack_args(b, lowered_args);
        let h = b.reserve_regs(2);
        let call_args = vec![(Ty::I64, Operand::Reg(h)), (Ty::Ptr, buf), (Ty::I64, Operand::Int(n as u64))];
        let ghost want = seq![
            (Ty::I64, OperandV::Reg(h)),
            (Ty::Ptr, stack_args_ptr(s1, vv)),
            (Ty::I64, OperandV::Int(n as u64)),
        ];
        assert(args_view(call_args@) =~= want);
        let insts = vec![
            Inst::UnboxToI64 { dest: h, val: recv_box },
            Inst::Call { dest: Some(h + 1), ret: Ty::Double, callee: String::from_str("js_closure_call_array"), args: call_args },
        ];
        assert(insts_view(insts@) =~= seq![
            InstV::UnboxToI64 { dest: h, val: rv },
            InstV::Call { dest: Some((h + 1) as u64), ret: Ty::Double, callee: "js_closure_call_array"@, args: want },
        ]);
        b.push_all(insts);
        result = h + 1;
    }
    if let Some(prev) = prev_this {
        emit_set_this(b, Operand::Reg(prev));
    }
    Operand::Reg(result)
}

/// The last arm of a general call, for a callee with no dedicated
/// lowering: with at most sixteen arguments, the callee's value called as
/// a closure (see `try_lower_closure_call_fallthrough`); with more, the
/// call is refused and nothing is emitted.
pub fn lower_call_fallthrough(
    b: &mut FnBuilder,
    callee: &Expr,
    this_box: Option<Operand>,
    recv_box: Operand,
    lowered_args: &Vec<Operand>,
) -> (res: Result<Operand, LowerError>)
    requires
        old(b)@.wf(),
        old(b)@.next_reg + lowered_args@.len() + 5 <= u64::MAX,
        this_box is Some <==> binds_method_this(*callee),
    ensures
        lowered_args@.len() > 16 ==> res == Err::<Operand, LowerError>(
            LowerError::UnsupportedCallee { nargs: lowered_args@.len() as usize },
        ) && final(b)@ == old(b)@,
        lowered_args@.len() <= 16 ==> ({
            let tv = match this_box {
                Some(t) => Some(t@),
                None => None,
            };
            let (post, result) = closure_fallthrough_result(old(b)@, tv, recv_box@, operands_view(lowered_args@));
            &&& final(b)@ == post
            &&& res matches Ok(o) && o@ == result
        }),
        final(b)@.wf(),
{
    if lowered_args.len() > MAX_CLOSURE_ARGS {
        return Err(LowerError::UnsupportedCallee { nargs: lowered_args.len() });
    }
    Ok(try_lower_closure_call_fallthrough(b, callee, this_box, recv_box, lowered_args))
}

} // verus!
