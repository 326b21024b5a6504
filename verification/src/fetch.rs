//! Web Fetch and Web Streams method calls on runtime handles: `Response`,
//! `Blob`, `Request`, readable/writable/transform streams and their
//! readers and writers, the `Response.json` factory, and `Headers`.

use vstd::prelude::*;

use crate::ir::{args_view, copy_operand, insts_view, operands_view, FnBuilder, FnBuilderV, Inst, InstV, JsTag, Operand, OperandV, Ty};
use crate::text::str_eq;

verus! {

/// The argument a handle method passes after the receiver.
#[derive(Copy, Clone, Debug, PartialEq, Eq, Structural)]
pub enum HandleArg {
    NoArg,
    /// The first argument, `undefined` when absent.
    FirstOrUndefined,
    /// The first argument (`undefined` when absent) unwrapped to its stream
    /// handle.
    FirstUnwrapped,
    /// The first argument's string pointer (`0` when absent), then the
    /// second argument (`302.0` when absent).
    UrlAndStatus,
    /// `Blob.slice`'s start and end (NaN when absent, for the defaults)
    /// and its content type's string pointer (`0` when absent).
    SliceArgs,
    /// The first argument, a transform stream (`undefined` when absent),
    /// unwrapped to its handle, and then its writable and readable sides.
    TransformPair,
}

/// How a handle method's result comes back.
#[derive(Copy, Clone, Debug, PartialEq, Eq, Structural)]
pub enum HandleRet {
    /// A JS value (`double`), used as is.
    Value,
    /// A promise pointer (`i64`), NaN-boxed as a pointer.
    Promise,
    /// A string pointer (`i64`), NaN-boxed as a string.
    Str,
    /// A `double` truth value (non-zero is true), as a JS boolean.
    Truth,
}

/// A handle method: its runtime function, whether the receiver is first
/// unwrapped to its stream handle (stream subclass instances keep it in a
/// field), its argument, and its result.
pub struct HandleMethodV {
    pub runtime: Seq<char>,
    pub unwrap: bool,
    pub arg: HandleArg,
    pub ret: HandleRet,
}

/// A handle method, as the lowering carries it.
#[derive(Copy, Clone, Debug)]
pub struct HandleMethod {
    pub runtime: &'static str,
    pub unwrap: bool,
    pub arg: HandleArg,
    pub ret: HandleRet,
}

impl View for HandleMethod {
    type V = HandleMethodV;

    open spec fn view(&self) -> HandleMethodV {
        HandleMethodV { runtime: self.runtime@, unwrap: self.unwrap, arg: self.arg, ret: self.ret }
    }
}

/// Shorthand for a handle method view.
pub open spec fn hm(runtime: Seq<char>, unwrap: bool, arg: HandleArg, ret: HandleRet) -> Option<HandleMethodV> {
    Some(HandleMethodV { runtime, unwrap, arg, ret })
}

/// The handle method `module.method` names, with or without a receiver.
pub open spec fn handle_method_spec(module: Seq<char>, method: Seq<char>, has_receiver: bool) -> Option<HandleMethodV> {
    let n = HandleArg::NoArg;
    let a = HandleArg::FirstOrUndefined;
    let v = HandleRet::Value;
    let p = HandleRet::Promise;
    let s = HandleRet::Str;
    if !has_receiver {
        if module == "fetch"@ && method == "static_json"@ {
            hm("js_response_static_json"@, false, a, v)
        } else if module == "fetch"@ && method == "static_redirect"@ {
            hm("js_response_static_redirect"@, false, HandleArg::UrlAndStatus, v)
        } else {
            None
        }
    } else if module == "Request"@ {
        if method == "url"@ {
            hm("js_request_get_url"@, false, n, s)
        } else if method == "method"@ {
            hm("js_request_get_method"@, false, n, s)
        } else if method == "body"@ {
            hm("js_request_get_body"@, false, n, v)
        } else {
            None
        }
    } else if module == "fetch"@ {
        if method == "text"@ {
            hm("js_fetch_response_text"@, false, n, p)
        } else if method == "json"@ {
            hm("js_fetch_response_json"@, false, n, p)
        } else if method == "status"@ {
            hm("js_fetch_response_status"@, false, n, v)
        } else if method == "statusText"@ {
            hm("js_fetch_response_status_text"@, false, n, s)
        } else if method == "ok"@ {
            hm("js_fetch_response_ok"@, false, n, HandleRet::Truth)
        } else if method == "headers"@ {
            hm("js_response_get_headers"@, false, n, v)
        } else if method == "clone"@ {
            hm("js_response_clone"@, false, n, v)
        } else if method == "arrayBuffer"@ {
            hm("js_response_array_buffer"@, false, n, p)
        } else if method == "blob"@ {
            hm("js_response_blob"@, false, n, p)
        } else if method == "body"@ {
            hm("js_response_body"@, false, n, v)
        } else {
            None
        }
    } else if module == "blob"@ {
        if method == "size"@ {
            hm("js_blob_size"@, false, n, v)
        } else if method == "type"@ {
            hm("js_blob_type"@, false, n, s)
        } else if method == "arrayBuffer"@ {
            hm("js_blob_array_buffer"@, false, n, p)
        } else if method == "bytes"@ {
            hm("js_blob_bytes"@, false, n, p)
        } else if method == "text"@ {
            hm("js_blob_text"@, false, n, p)
        } else if method == "slice"@ {
            hm("js_blob_slice"@, false, HandleArg::SliceArgs, v)
        } else if method == "stream"@ {
            hm("js_blob_stream"@, false, n, v)
        } else {
            None
        }
    } else if module == "readable_stream"@ {
        if method == "getReader"@ {
            hm("js_readable_stream_get_reader"@, true, n, v)
        } else if method == "cancel"@ {
            hm("js_readable_stream_cancel"@, true, a, p)
        } else if method == "tee"@ {
            hm("js_readable_stream_tee"@, true, n, v)
        } else if method == "pipeTo"@ {
            hm("js_readable_stream_pipe_to"@, true, HandleArg::FirstUnwrapped, p)
        } else if method == "pipeThrough"@ {
            hm("js_readable_stream_pipe_through"@, true, HandleArg::TransformPair, v)
        } else if method == "locked"@ {
            hm("js_readable_stream_locked"@, true, n, v)
        } else if method == "enqueue"@ {
            hm("js_readable_stream_controller_enqueue"@, true, a, v)
        } else if method == "close"@ {
            hm("js_readable_stream_controller_close"@, true, n, v)
        } else if method == "error"@ {
            hm("js_readable_stream_controller_error"@, true, a, v)
        } else if method == "desiredSize"@ {
            hm("js_readable_stream_controller_desired_size"@, true, n, v)
        } else {
            None
        }
    } else if module == "readable_stream_reader"@ {
        if method == "read"@ {
            hm("js_reader_read"@, false, n, p)
        } else if method == "releaseLock"@ {
            hm("js_reader_release_lock"@, false, n, v)
        } else if method == "cancel"@ {
            hm("js_reader_cancel"@, false, a, p)
        } else if method == "closed"@ {
            hm("js_reader_closed"@, false, n, p)
        } else {
            None
        }
    } else if module == "writable_stream"@ {
        if method == "getWriter"@ {
            hm("js_writable_stream_get_writer"@, true, n, v)
        } else if method == "abort"@ {
            hm("js_writable_stream_abort"@, true, a, p)
        } else if method == "close"@ {
            hm("js_writable_stream_close"@, true, n, p)
        } else if method == "locked"@ {
            hm("js_writable_stream_locked"@, true, n, v)
        } else {
            None
        }
    } else if module == "writable_stream_writer"@ {
        if method == "write"@ {
            hm("js_writer_write"@, false, a, p)
        } else if method == "close"@ {
            hm("js_writer_close"@, false, n, p)
        } else if method == "abort"@ {
            hm("js_writer_abort"@, false, a, p)
        } else if method == "releaseLock"@ {
            hm("js_writer_release_lock"@, false, n, v)
        } else if method == "closed"@ {
            hm("js_writer_closed"@, false, n, p)
        } else if method == "ready"@ {
            hm("js_writer_ready"@, false, n, p)
        } else if method == "desiredSize"@ {
            hm("js_writer_desired_size"@, false, n, v)
        } else {
            None
        }
    } else if module == "transform_stream"@ {
        if method == "readable"@ {
            hm("js_transform_stream_readable"@, true, n, v)
        } else if method == "writable"@ {
            hm("js_transform_stream_writable"@, true, n, v)
        } else {
            None
        }
    } else {
        None
    }
}

fn mk(runtime: &'static str, unwrap: bool, arg: HandleArg, ret: HandleRet) -> (res: Option<HandleMethod>)
    ensures
        res matches Some(h) && h@ == (HandleMethodV { runtime: runtime@, unwrap, arg, ret }),
{
    Some(HandleMethod { runtime, unwrap, arg, ret })
}

/// The handle method `module.method` names, with or without a receiver.
pub fn handle_method(module: &str, method: &str, has_receiver: bool) -> (res: Option<HandleMethod>)
    ensures
        match (res, handle_method_spec(module@, method@, has_receiver)) {
            (Some(h), Some(s)) => h@ == s,
            (None, None) => true,
            _ => false,
        },
{
    let n = HandleArg::NoArg;
    let a = HandleArg::FirstOrUndefined;
    let v = HandleRet::Value;
    let p = HandleRet::Promise;
    let s = HandleRet::Str;
    if !has_receiver {
        if str_eq(module, "fetch") && str_eq(method, "static_json") {
            mk("js_response_static_json", false, a, v)
        } else if str_eq(module, "fetch") && str_eq(method, "static_redirect") {
            mk("js_response_static_redirect", false, HandleArg::UrlAndStatus, v)
        } else {
            None
        }
    } else if str_eq(module, "Request") {
        if str_eq(method, "url") {
            mk("js_request_get_url", false, n, s)
        } else if str_eq(method, "method") {
            mk("js_request_get_method", false, n, s)
        } else if str_eq(method, "body") {
            mk("js_request_get_body", false, n, v)
        } else {
            None
        }
    } else if str_eq(module, "fetch") {
        if str_eq(method, "text") {
            mk("js_fetch_response_text", false, n, p)
        } else if str_eq(method, "json") {
            mk("js_fetch_response_json", false, n, p)
        } else if str_eq(method, "status") {
            mk("js_fetch_response_status", false, n, v)
        } else if str_eq(method, "statusText") {
            mk("js_fetch_response_status_text", false, n, s)
        } else if str_eq(method, "ok") {
            mk("js_fetch_response_ok", false, n, HandleRet::Truth)
        } else if str_eq(method, "headers") {
            mk("js_response_get_headers", false, n, v)
        } else if str_eq(method, "clone") {
            mk("js_response_clone", false, n, v)
        } else if str_eq(method, "arrayBuffer") {
            mk("js_response_array_buffer", false, n, p)
        } else if str_eq(method, "blob") {
            mk("js_response_blob", false, n, p)
        } else if str_eq(method, "body") {
            mk("js_response_body", false, n, v)
        } else {
            None
        }
    } else if str_eq(module, "blob") {
        if str_eq(method, "size") {
            mk("js_blob_size", false, n, v)
        } else if str_eq(method, "type") {
            mk("js_blob_type", false, n, s)
        } else if str_eq(method, "arrayBuffer") {
            mk("js_blob_array_buffer", false, n, p)
        } else if str_eq(method, "bytes") {
            mk("js_blob_bytes", false, n, p)
        } else if str_eq(method, "text") {
            mk("js_blob_text", false, n, p)
        } else if str_eq(method, "slice") {
            mk("js_blob_slice", false, HandleArg::SliceArgs, v)
        } else if str_eq(method, "stream") {
            mk("js_blob_stream", false, n, v)
        } else {
            None
        }
    } else if str_eq(module, "readable_stream") {
        if str_eq(method, "getReader") {
            mk("js_readable_stream_get_reader", true, n, v)
        } else if str_eq(method, "cancel") {
            mk("js_readable_stream_cancel", true, a, p)
        } else if str_eq(method, "tee") {
            mk("js_readable_stream_tee", true, n, v)
        } else if str_eq(method, "pipeTo") {
            mk("js_readable_stream_pipe_to", true, HandleArg::FirstUnwrapped, p)
        } else if str_eq(method, "pipeThrough") {
            mk("js_readable_stream_pipe_through", true, HandleArg::TransformPair, v)
        } else if str_eq(method, "locked") {
            mk("js_readable_stream_locked", true, n, v)
        } else if str_eq(method, "enqueue") {
            mk("js_readable_stream_controller_enqueue", true, a, v)
        } else if str_eq(method, "close") {
            mk("js_readable_stream_controller_close", true, n, v)
        } else if str_eq(method, "error") {
            mk("js_readable_stream_controller_error", true, a, v)
        } else if str_eq(method, "desiredSize") {
            mk("js_readable_stream_controller_desired_size", true, n, v)
        } else {
            None
        }
    } else if str_eq(module, "readable_stream_reader") {
        if str_eq(method, "read") {
            mk("js_reader_read", false, n, p)
        } else if str_eq(method, "releaseLock") {
            mk("js_reader_release_lock", false, n, v)
        } else if str_eq(method, "cancel") {
            mk("js_reader_cancel", false, a, p)
        } else if str_eq(method, "closed") {
            mk("js_reader_closed", false, n, p)
        } else {
            None
        }
    } else if str_eq(module, "writable_stream") {
        if str_eq(method, "getWriter") {
            mk("js_writable_stream_get_writer", true, n, v)
        } else if str_eq(method, "abort") {
            mk("js_writable_stream_abort", true, a, p)
        } else if str_eq(method, "close") {
            mk("js_writable_stream_close", true, n, p)
        } else if str_eq(method, "locked") {
            mk("js_writable_stream_locked", true, n, v)
        } else {
            None
        }
    } else if str_eq(module, "writable_stream_writer") {
        if str_eq(method, "write") {
            mk("js_writer_write", false, a, p)
        } else if str_eq(method, "close") {
            mk("js_writer_close", false, n, p)
        } else if str_eq(method, "abort") {
            mk("js_writer_abort", false, a, p)
        } else if str_eq(method, "releaseLock") {
            mk("js_writer_release_lock", false, n, v)
        } else if str_eq(method, "closed") {
            mk("js_writer_closed", false, n, p)
        } else if str_eq(method, "ready") {
            mk("js_writer_ready", false, n, p)
        } else if str_eq(method, "desiredSize") {
            mk("js_writer_desired_size", false, n, v)
        } else {
            None
        }
    } else if str_eq(module, "transform_stream") {
        if str_eq(method, "readable") {
            mk("js_transform_stream_readable", true, n, v)
        } else if str_eq(method, "writable") {
            mk("js_transform_stream_writable", true, n, v)
        } else {
            None
        }
    } else {
        None
    }
}

/// `dest = call double @js_stream_unwrap_handle(double v)`.
pub open spec fn unwrap_call(dest: int, v: OperandV) -> InstV {
    InstV::Call {
        dest: Some(dest as u64),
        ret: Ty::Double,
        callee: "js_stream_unwrap_handle"@,
        args: seq![(Ty::Double, v)],
    }
}

/// The first value, `undefined` when absent.
pub open spec fn first_or_undefined(vals: Seq<OperandV>) -> OperandV {
    if vals.len() > 0 {
        vals[0]
    } else {
        OperandV::Tag(JsTag::Undefined)
    }
}

/// The instructions of a handle method call from register `r`, with the
/// lowered receiver `recv` (absent for a factory) and arguments `vals`:
/// `(instructions, result, next register)`.
pub open spec fn handle_method_insts(m: HandleMethodV, recv: Option<OperandV>, vals: Seq<OperandV>, r: int) -> (
    Seq<InstV>,
    OperandV,
    int,
) {
    // The receiver, unwrapped when the method asks.
    let (pre_recv, recv_arg, r1) = match recv {
        Some(h) => if m.unwrap {
            (seq![unwrap_call(r, h)], seq![(Ty::Double, OperandV::Reg(r as u64))], r + 1)
        } else {
            (Seq::<InstV>::empty(), seq![(Ty::Double, h)], r)
        },
        None => (Seq::<InstV>::empty(), Seq::<(Ty, OperandV)>::empty(), r),
    };
    // The argument.
    let (pre_arg, arg, r2) = match m.arg {
        HandleArg::NoArg => (Seq::<InstV>::empty(), Seq::<(Ty, OperandV)>::empty(), r1),
        HandleArg::FirstOrUndefined => (Seq::<InstV>::empty(), seq![(Ty::Double, first_or_undefined(vals))], r1),
        HandleArg::FirstUnwrapped => (
            seq![unwrap_call(r1, first_or_undefined(vals))],
            seq![(Ty::Double, OperandV::Reg(r1 as u64))],
            r1 + 1,
        ),
        HandleArg::UrlAndStatus => if vals.len() > 0 {
            (
                seq![str_ptr_call(r1, vals[0])],
                seq![(Ty::I64, OperandV::Reg(r1 as u64)), (Ty::Double, second_or_redirect(vals))],
                r1 + 1,
            )
        } else {
            (Seq::<InstV>::empty(), seq![(Ty::I64, OperandV::Int(0)), (Ty::Double, second_or_redirect(vals))], r1)
        },
        HandleArg::SliceArgs => {
            let bounds = seq![(Ty::Double, nth_or_nan(vals, 0)), (Ty::Double, nth_or_nan(vals, 1))];
            if vals.len() >= 3 {
                (seq![str_ptr_call(r1, vals[2])], bounds.push((Ty::I64, OperandV::Reg(r1 as u64))), r1 + 1)
            } else {
                (Seq::<InstV>::empty(), bounds.push((Ty::I64, OperandV::Int(0))), r1)
            }
        },
        HandleArg::TransformPair => (
            transform_pair_insts(first_or_undefined(vals), r1),
            seq![(Ty::Double, OperandV::Reg((r1 + 1) as u64)), (Ty::Double, OperandV::Reg((r1 + 2) as u64))],
            r1 + 3,
        ),
    };
    let args = recv_arg + arg;
    let prefix = pre_recv + pre_arg;
    match m.ret {
        HandleRet::Value => (
            prefix + seq![InstV::Call { dest: Some(r2 as u64), ret: Ty::Double, callee: m.runtime, args }],
            OperandV::Reg(r2 as u64),
            r2 + 1,
        ),
        HandleRet::Promise => (
            prefix + seq![
                InstV::Call { dest: Some(r2 as u64), ret: Ty::I64, callee: m.runtime, args },
                InstV::NanboxPointer { dest: (r2 + 1) as u64, val: OperandV::Reg(r2 as u64) },
            ],
            OperandV::Reg((r2 + 1) as u64),
            r2 + 2,
        ),
        HandleRet::Str => (
            prefix + seq![
                InstV::Call { dest: Some(r2 as u64), ret: Ty::I64, callee: m.runtime, args },
                InstV::NanboxString { dest: (r2 + 1) as u64, val: OperandV::Reg(r2 as u64) },
            ],
            OperandV::Reg((r2 + 1) as u64),
            r2 + 2,
        ),
        HandleRet::Truth => (
            prefix + truth_insts(m.runtime, args, r2),
            OperandV::Reg((r2 + 3) as u64),
            r2 + 4,
        ),
    }
}

/// Value `i`, NaN when absent.
pub open spec fn nth_or_nan(vals: Seq<OperandV>, i: int) -> OperandV {
    if i < vals.len() {
        vals[i]
    } else {
        OperandV::Nan
    }
}

/// A transform stream `t` unwrapped into `r`, then its writable side into
/// `r + 1` and its readable side into `r + 2`.
pub open spec fn transform_pair_insts(t: OperandV, r: int) -> Seq<InstV> {
    seq![
        unwrap_call(r, t),
        InstV::Call {
            dest: Some((r + 1) as u64),
            ret: Ty::Double,
            callee: "js_transform_stream_writable"@,
            args: seq![(Ty::Double, OperandV::Reg(r as u64))],
        },
        InstV::Call {
            dest: Some((r + 2) as u64),
            ret: Ty::Double,
            callee: "js_transform_stream_readable"@,
            args: seq![(Ty::Double, OperandV::Reg(r as u64))],
        },
    ]
}

/// The second value, `302.0` (a redirect's default status) when absent.
pub open spec fn second_or_redirect(vals: Seq<OperandV>) -> OperandV {
    if vals.len() >= 2 {
        vals[1]
    } else {
        OperandV::Num(302)
    }
}

/// A call of a runtime returning a `double` truth value into `r`, mapped
/// to the JS boolean: `r + 1` whether it is non-zero, `r + 2` the
/// selected `true`/`false` bits, `r + 3` those bits as a `double`.
pub open spec fn truth_insts(runtime: Seq<char>, args: Seq<(Ty, OperandV)>, r: int) -> Seq<InstV> {
    seq![
        InstV::Call { dest: Some(r as u64), ret: Ty::Double, callee: runtime, args },
        InstV::FloatNe { dest: (r + 1) as u64, lhs: OperandV::Reg(r as u64), rhs: OperandV::Zero },
        InstV::Select {
            dest: (r + 2) as u64,
            cond: OperandV::Reg((r + 1) as u64),
            ty: Ty::I64,
            if_true: OperandV::Tag(JsTag::True),
            if_false: OperandV::Tag(JsTag::False),
        },
        InstV::BitcastI64ToDouble { dest: (r + 3) as u64, val: OperandV::Reg((r + 2) as u64) },
    ]
}

/// Emits a handle method call (see `handle_method_insts`) and returns its
/// result.
#[verifier::rlimit(50)]
pub fn emit_handle_method(b: &mut FnBuilder, m: HandleMethod, recv: Option<Operand>, lowered_args: &Vec<Operand>) -> (res:
    Operand)
    requires
        old(b)@.wf(),
        old(b)@.next_reg + 8 <= u64::MAX,
    ensures
        ({
            let rv = match recv {
                Some(h) => Some(h@),
                None => None,
            };
            let (insts, result, next) = handle_method_insts(m@, rv, operands_view(lowered_args@), old(b)@.next_reg);
            &&& final(b)@ == (FnBuilderV { next_reg: next, ..old(b)@ }).append_cur(insts)
            &&& res@ == result
        }),
        final(b)@.wf(),
{
    let ghost pre = b@;
    let ghost rv = match &recv {
        Some(h) => Some(h@),
        None => None::<OperandV>,
    };
    let ghost vv = operands_view(lowered_args@);
    let ghost (want, result, next) = handle_method_insts(m@, rv, vv, pre.next_reg);
    let r = b.peek_reg();
    let mut insts: Vec<Inst> = Vec::new();
    let mut args: Vec<crate::ir::Arg> = Vec::new();
    let mut q = r;
    // The receiver, unwrapped when the method asks.
    match recv {
        Some(h) => {
            if m.unwrap {
                let ghost hv = h@;
                let a = vec![(Ty::Double, h)];
                assert(args_view(a@) =~= seq![(Ty::Double, hv)]);
                insts.push(Inst::Call {
                    dest: Some(q),
                    ret: Ty::Double,
                    callee: String::from_str("js_stream_unwrap_handle"),
                    args: a,
                });
                args.push((Ty::Double, Operand::Reg(q)));
                q = q + 1;
            } else {
                args.push((Ty::Double, h));
            }
        },
        None => {},
    }
    let ghost stage1 = match rv {
        Some(h) => if m@.unwrap {
            (seq![unwrap_call(r as int, h)], seq![(Ty::Double, OperandV::Reg(r))], r + 1)
        } else {
            (Seq::<InstV>::empty(), seq![(Ty::Double, h)], r as int)
        },
        None => (Seq::<InstV>::empty(), Seq::<(Ty, OperandV)>::empty(), r as int),
    };
    assert(insts_view(insts@) =~= stage1.0);
    assert(args_view(args@) =~= stage1.1);
    assert(q == stage1.2);
    // The argument.
    let first = if lowered_args.len() > 0 {
        copy_operand(&lowered_args[0])
    } else {
        Operand::Tag(JsTag::Undefined)
    };
    match m.arg {
        HandleArg::NoArg => {},
        HandleArg::FirstOrUndefined => {
            args.push((Ty::Double, first));
        },
        HandleArg::FirstUnwrapped => {
            let ghost fv = first@;
            let a = vec![(Ty::Double, first)];
            assert(args_view(a@) =~= seq![(Ty::Double, fv)]);
            insts.push(Inst::Call {
                dest: Some(q),
                ret: Ty::Double,
                callee: String::from_str("js_stream_unwrap_handle"),
                args: a,
            });
            args.push((Ty::Double, Operand::Reg(q)));
            q = q + 1;
        },
        HandleArg::UrlAndStatus => {
            let status = if lowered_args.len() >= 2 {
                copy_operand(&lowered_args[1])
            } else {
                Operand::Num(302)
            };
            if lowered_args.len() > 0 {
                insts.push(str_ptr_inst(q, first));
                args.push((Ty::I64, Operand::Reg(q)));
                q = q + 1;
            } else {
                args.push((Ty::I64, Operand::Int(0)));
            }
            args.push((Ty::Double, status));
        },
        HandleArg::SliceArgs => {
            let start = if lowered_args.len() >= 1 {
                copy_operand(&lowered_args[0])
            } else {
                Operand::Nan
            };
            let end = if lowered_args.len() >= 2 {
                copy_operand(&lowered_args[1])
            } else {
                Operand::Nan
            };
            args.push((Ty::Double, start));
            args.push((Ty::Double, end));
            if lowered_args.len() >= 3 {
                insts.push(str_ptr_inst(q, copy_operand(&lowered_args[2])));
                args.push((Ty::I64, Operand::Reg(q)));
                q = q + 1;
            } else {
                args.push((Ty::I64, Operand::Int(0)));
            }
        },
        HandleArg::TransformPair => {
            let ghost fv = first@;
            let a0 = vec![(Ty::Double, first)];
            assert(args_view(a0@) =~= seq![(Ty::Double, fv)]);
            insts.push(Inst::Call {
                dest: Some(q),
                ret: Ty::Double,
                callee: String::from_str("js_stream_unwrap_handle"),
                args: a0,
            });
            let a1 = vec![(Ty::Double, Operand::Reg(q))];
            assert(args_view(a1@) =~= seq![(Ty::Double, OperandV::Reg(q))]);
            insts.push(call_inst(Some(q + 1), Ty::Double, "js_transform_stream_writable", a1));
            let a2 = vec![(Ty::Double, Operand::Reg(q))];
            assert(args_view(a2@) =~= seq![(Ty::Double, OperandV::Reg(q))]);
            insts.push(call_inst(Some(q + 2), Ty::Double, "js_transform_stream_readable", a2));
            args.push((Ty::Double, Operand::Reg(q + 1)));
            args.push((Ty::Double, Operand::Reg(q + 2)));
            q = q + 3;
        },
    }
    let ghost stage2 = match m.arg {
        HandleArg::NoArg => (Seq::<InstV>::empty(), Seq::<(Ty, OperandV)>::empty(), stage1.2),
        HandleArg::FirstOrUndefined => (Seq::<InstV>::empty(), seq![(Ty::Double, first_or_undefined(vv))], stage1.2),
        HandleArg::FirstUnwrapped => (
            seq![unwrap_call(stage1.2, first_or_undefined(vv))],
            seq![(Ty::Double, OperandV::Reg(stage1.2 as u64))],
            stage1.2 + 1,
        ),
        HandleArg::UrlAndStatus => if vv.len() > 0 {
            (
                seq![str_ptr_call(stage1.2, vv[0])],
                seq![(Ty::I64, OperandV::Reg(stage1.2 as u64)), (Ty::Double, second_or_redirect(vv))],
                stage1.2 + 1,
            )
        } else {
            (
                Seq::<InstV>::empty(),
                seq![(Ty::I64, OperandV::Int(0)), (Ty::Double, second_or_redirect(vv))],
                stage1.2,
            )
        },
        HandleArg::SliceArgs => {
            let bounds = seq![(Ty::Double, nth_or_nan(vv, 0)), (Ty::Double, nth_or_nan(vv, 1))];
            if vv.len() >= 3 {
                (seq![str_ptr_call(stage1.2, vv[2])], bounds.push((Ty::I64, OperandV::Reg(stage1.2 as u64))), stage1.2 + 1)
            } else {
                (Seq::<InstV>::empty(), bounds.push((Ty::I64, OperandV::Int(0))), stage1.2)
            }
        },
        HandleArg::TransformPair => (
            transform_pair_insts(first_or_undefined(vv), stage1.2),
            seq![
                (Ty::Double, OperandV::Reg((stage1.2 + 1) as u64)),
                (Ty::Double, OperandV::Reg((stage1.2 + 2) as u64)),
            ],
            stage1.2 + 3,
        ),
    };
    assert(insts_view(insts@) =~= stage1.0 + stage2.0);
    assert(args_view(args@) =~= stage1.1 + stage2.1);
    assert(q == stage2.2);
    let res = match m.ret {
        HandleRet::Value => {
            insts.push(Inst::Call { dest: Some(q), ret: Ty::Double, callee: String::from_str(m.runtime), args });
            q = q + 1;
            Operand::Reg(q - 1)
        },
        HandleRet::Promise => {
            insts.push(Inst::Call { dest: Some(q), ret: Ty::I64, callee: String::from_str(m.runtime), args });
            insts.push(Inst::NanboxPointer { dest: q + 1, val: Operand::Reg(q) });
            q = q + 2;
            Operand::Reg(q - 1)
        },
        HandleRet::Str => {
            insts.push(Inst::Call { dest: Some(q), ret: Ty::I64, callee: String::from_str(m.runtime), args });
            insts.push(Inst::NanboxString { dest: q + 1, val: Operand::Reg(q) });
            q = q + 2;
            Operand::Reg(q - 1)
        },
        HandleRet::Truth => {
            insts.push(Inst::Call { dest: Some(q), ret: Ty::Double, callee: String::from_str(m.runtime), args });
            insts.push(Inst::FloatNe { dest: q + 1, lhs: Operand::Reg(q), rhs: Operand::Zero });
            insts.push(
                Inst::Select {
                    dest: q + 2,
                    cond: Operand::Reg(q + 1),
                    ty: Ty::I64,
                    if_true: Operand::Tag(JsTag::True),
                    if_false: Operand::Tag(JsTag::False),
                },
            );
            insts.push(Inst::BitcastI64ToDouble { dest: q + 3, val: Operand::Reg(q + 2) });
            q = q + 4;
            Operand::Reg(q - 1)
        },
    };
    assert(insts_view(insts@) =~= want);
    b.reserve_regs(q - r);
    b.push_all(insts);
    res
}

/// `dest = call i64 @js_get_string_pointer_unified(double v)`: the raw
/// string pointer of a JS value.
pub open spec fn str_ptr_call(dest: int, v: OperandV) -> InstV {
    InstV::Call {
        dest: Some(dest as u64),
        ret: Ty::I64,
        callee: "js_get_string_pointer_unified"@,
        args: seq![(Ty::Double, v)],
    }
}

/// A `Headers` method call on handle `h` from register `r`:
/// `Some((instructions, result, next register))`, `None` for a method
/// `Headers` does not have. Calls missing their key (or value) yield a
/// constant without a call.
pub open spec fn headers_insts(method: Seq<char>, h: OperandV, vals: Seq<OperandV>, r: int) -> Option<
    (Seq<InstV>, OperandV, int),
> {
    let undef = OperandV::Tag(JsTag::Undefined);
    let n = vals.len();
    if method == "set"@ || method == "append"@ {
        if n < 2 {
            Some((Seq::empty(), OperandV::Zero, r))
        } else {
            Some(
                (
                    seq![
                        str_ptr_call(r, vals[0]),
                        str_ptr_call(r + 1, vals[1]),
                        InstV::Call {
                            dest: Some((r + 2) as u64),
                            ret: Ty::Double,
                            callee: "js_headers_set"@,
                            args: seq![
                                (Ty::Double, h),
                                (Ty::I64, OperandV::Reg(r as u64)),
                                (Ty::I64, OperandV::Reg((r + 1) as u64)),
                            ],
                        },
                    ],
                    undef,
                    r + 3,
                ),
            )
        }
    } else if method == "get"@ {
        if n == 0 {
            Some((Seq::empty(), OperandV::Zero, r))
        } else {
            Some(
                (
                    seq![
                        str_ptr_call(r, vals[0]),
                        InstV::Call {
                            dest: Some((r + 1) as u64),
                            ret: Ty::I64,
                            callee: "js_headers_get"@,
                            args: seq![(Ty::Double, h), (Ty::I64, OperandV::Reg(r as u64))],
                        },
                        InstV::NanboxString { dest: (r + 2) as u64, val: OperandV::Reg((r + 1) as u64) },
                    ],
                    OperandV::Reg((r + 2) as u64),
                    r + 3,
                ),
            )
        }
    } else if method == "has"@ {
        if n == 0 {
            Some((Seq::empty(), OperandV::Tag(JsTag::False), r))
        } else {
            Some(
                (
                    seq![
                        str_ptr_call(r, vals[0]),
                        InstV::Call {
                            dest: Some((r + 1) as u64),
                            ret: Ty::Double,
                            callee: "js_headers_has"@,
                            args: seq![(Ty::Double, h), (Ty::I64, OperandV::Reg(r as u64))],
                        },
                    ],
                    OperandV::Reg((r + 1) as u64),
                    r + 2,
                ),
            )
        }
    } else if method == "delete"@ {
        if n == 0 {
            Some((Seq::empty(), undef, r))
        } else {
            Some(
                (
                    seq![
                        str_ptr_call(r, vals[0]),
                        InstV::Call {
                            dest: Some((r + 1) as u64),
                            ret: Ty::Double,
                            callee: "js_headers_delete"@,
                            args: seq![(Ty::Double, h), (Ty::I64, OperandV::Reg(r as u64))],
                        },
                    ],
                    undef,
                    r + 2,
                ),
            )
        }
    } else if method == "forEach"@ {
        if n == 0 {
            Some((Seq::empty(), OperandV::Zero, r))
        } else {
            Some(
                (
                    seq![
                        InstV::Call {
                            dest: Some(r as u64),
                            ret: Ty::Double,
                            callee: "js_headers_for_each"@,
                            args: seq![(Ty::Double, h), (Ty::Double, vals[0])],
                        },
                    ],
                    undef,
                    r + 1,
                ),
            )
        }
    } else if method == "keys"@ || method == "values"@ || method == "entries"@ {
        let runtime = if method == "keys"@ {
            "js_headers_keys"@
        } else if method == "values"@ {
            "js_headers_values"@
        } else {
            "js_headers_entries"@
        };
        Some(
            (
                seq![InstV::Call { dest: Some(r as u64), ret: Ty::Double, callee: runtime, args: seq![(Ty::Double, h)] }],
                OperandV::Reg(r as u64),
                r + 1,
            ),
        )
    } else {
        None
    }
}

/// An `axios` call from register `r`: the receiver-less request methods
/// (`get`, `delete`, and `post`/`put`/`patch` with a body) on the URL
/// argument, or the response getters (`status`, `statusText`, `data`) on a
/// response handle `recv`. `None` for any other method.
pub open spec fn axios_insts(method: Seq<char>, recv: Option<OperandV>, vals: Seq<OperandV>, r: int) -> Option<
    (Seq<InstV>, OperandV, int),
> {
    match recv {
        None => {
            let url = first_or_undefined(vals);
            let body = if vals.len() > 1 {
                vals[1]
            } else {
                OperandV::Tag(JsTag::Undefined)
            };
            let unbox = InstV::UnboxToI64 { dest: r as u64, val: url };
            let (runtime, args) = if method == "get"@ {
                ("js_axios_get"@, seq![(Ty::I64, OperandV::Reg(r as u64))])
            } else if method == "delete"@ {
                ("js_axios_delete"@, seq![(Ty::I64, OperandV::Reg(r as u64))])
            } else if method == "post"@ {
                ("js_axios_post"@, seq![(Ty::I64, OperandV::Reg(r as u64)), (Ty::Double, body)])
            } else if method == "put"@ {
                ("js_axios_put"@, seq![(Ty::I64, OperandV::Reg(r as u64)), (Ty::Double, body)])
            } else {
                ("js_axios_patch"@, seq![(Ty::I64, OperandV::Reg(r as u64)), (Ty::Double, body)])
            };
            if method == "get"@ || method == "delete"@ || method == "post"@ || method == "put"@ || method == "patch"@ {
                Some(
                    (
                        seq![
                            unbox,
                            InstV::Call { dest: Some((r + 1) as u64), ret: Ty::I64, callee: runtime, args },
                            InstV::NanboxPointer { dest: (r + 2) as u64, val: OperandV::Reg((r + 1) as u64) },
                        ],
                        OperandV::Reg((r + 2) as u64),
                        r + 3,
                    ),
                )
            } else {
                None
            }
        },
        Some(h) => {
            let unbox = InstV::UnboxToI64 { dest: r as u64, val: h };
            let a = seq![(Ty::I64, OperandV::Reg(r as u64))];
            if method == "status"@ {
                Some(
                    (
                        seq![
                            unbox,
                            InstV::Call {
                                dest: Some((r + 1) as u64),
                                ret: Ty::Double,
                                callee: "js_axios_response_status"@,
                                args: a,
                            },
                        ],
                        OperandV::Reg((r + 1) as u64),
                        r + 2,
                    ),
                )
            } else if method == "statusText"@ {
                Some(
                    (
                        seq![
                            unbox,
                            InstV::Call {
                                dest: Some((r + 1) as u64),
                                ret: Ty::I64,
                                callee: "js_axios_response_status_text"@,
                                args: a,
                            },
                            InstV::NanboxString { dest: (r + 2) as u64, val: OperandV::Reg((r + 1) as u64) },
                        ],
                        OperandV::Reg((r + 2) as u64),
                        r + 3,
                    ),
                )
            } else if method == "data"@ {
                Some(
                    (
                        seq![
                            unbox,
                            InstV::Call {
                                dest: Some((r + 1) as u64),
                                ret: Ty::Double,
                                callee: "js_axios_response_data_parsed"@,
                                args: a,
                            },
                        ],
                        OperandV::Reg((r + 1) as u64),
                        r + 2,
                    ),
                )
            } else {
                None
            }
        },
    }
}

/// A Web Fetch / Streams / axios method call of `module.method` from `pre`,
/// with the lowered receiver (absent for the receiver-less forms) and
/// arguments; `None` when no lowering here applies.
pub open spec fn fetch_method_result(
    pre: FnBuilderV,
    module: Seq<char>,
    method: Seq<char>,
    recv: Option<OperandV>,
    vals: Seq<OperandV>,
) -> Option<(FnBuilderV, OperandV)> {
    let r = pre.next_reg;
    let step = if handle_method_spec(module, method, recv is Some) is Some {
        Some(handle_method_insts(handle_method_spec(module, method, recv is Some)->0, recv, vals, r))
    } else if module == "Headers"@ && recv is Some {
        headers_insts(method, recv->0, vals, r)
    } else if module == "axios"@ {
        axios_insts(method, recv, vals, r)
    } else {
        None
    };
    match step {
        Some((insts, result, next)) => Some(((FnBuilderV { next_reg: next, ..pre }).append_cur(insts), result)),
        None => None,
    }
}

/// The function state after a fetch-family method call that no lowering
/// here handles, from `pre`: a stream receiver (`readable_stream`,
/// `writable_stream`) has already been unwrapped to its handle; nothing
/// else is emitted.
pub open spec fn fetch_unhandled_state(pre: FnBuilderV, module: Seq<char>, recv: Option<OperandV>) -> FnBuilderV {
    match recv {
        Some(h) => if module == "readable_stream"@ || module == "writable_stream"@ {
            (FnBuilderV { next_reg: pre.next_reg + 1, ..pre }).append_cur(seq![unwrap_call(pre.next_reg, h)])
        } else {
            pre
        },
        None => pre,
    }
}

/// Emits `insts` after reserving the registers up to `next`.
fn emit_insts(b: &mut FnBuilder, insts: Vec<Inst>, next: u64)
    requires
        old(b)@.wf(),
        old(b)@.next_reg <= next,
    ensures
        final(b)@ == (FnBuilderV { next_reg: next as int, ..old(b)@ }).append_cur(insts_view(insts@)),
        final(b)@.wf(),
{
    let r = b.peek_reg();
    b.reserve_regs(next - r);
    b.push_all(insts);
}

/// The string pointer call `dest = js_get_string_pointer_unified(v)`.
pub(crate) fn str_ptr_inst(dest: u64, v: Operand) -> (res: Inst)
    ensures
        res@ == str_ptr_call(dest as int, v@),
{
    let ghost vv = v@;
    let a = vec![(Ty::Double, v)];
    assert(args_view(a@) =~= seq![(Ty::Double, vv)]);
    Inst::Call { dest: Some(dest), ret: Ty::I64, callee: String::from_str("js_get_string_pointer_unified"), args: a }
}

/// A call instruction with its arguments.
pub(crate) fn call_inst(dest: Option<u64>, ret: Ty, callee: &str, args: Vec<crate::ir::Arg>) -> (res: Inst)
    ensures
        res@ == (InstV::Call { dest, ret, callee: callee@, args: args_view(args@) }),
{
    Inst::Call { dest, ret, callee: String::from_str(callee), args }
}

/// Lowers a `Headers` method call on the lowered handle `h`; `None`, with
/// nothing emitted, for a method `Headers` does not have.
fn lower_headers_method(b: &mut FnBuilder, method: &str, h: Operand, lowered_args: &Vec<Operand>) -> (res: Option<Operand>)
    requires
        old(b)@.wf(),
        old(b)@.next_reg + 4 <= u64::MAX,
    ensures
        match headers_insts(method@, h@, operands_view(lowered_args@), old(b)@.next_reg) {
            None => res is None && final(b)@ == old(b)@,
            Some((insts, result, next)) => res matches Some(o) && o@ == result && final(b)@ == (FnBuilderV {
                next_reg: next,
                ..old(b)@
            }).append_cur(insts),
        },
        final(b)@.wf(),
{
    let ghost pre = b@;
    let ghost hv = h@;
    let ghost vv = operands_view(lowered_args@);
    let r = b.peek_reg();
    let n = lowered_args.len();
    if str_eq(method, "set") || str_eq(method, "append") {
        if n < 2 {
            proof {
                crate::ir::lemma_append_cur_empty(pre);
            }
            return Some(Operand::Zero);
        }
        let a = vec![(Ty::Double, h), (Ty::I64, Operand::Reg(r)), (Ty::I64, Operand::Reg(r + 1))];
        assert(args_view(a@) =~= seq![(Ty::Double, hv), (Ty::I64, OperandV::Reg(r)), (Ty::I64, OperandV::Reg((r + 1) as u64))]);
        let insts = vec![
            str_ptr_inst(r, copy_operand(&lowered_args[0])),
            str_ptr_inst(r + 1, copy_operand(&lowered_args[1])),
            call_inst(Some(r + 2), Ty::Double, "js_headers_set", a),
        ];
        assert(insts_view(insts@) =~= headers_insts(method@, hv, vv, r as int).unwrap().0);
        emit_insts(b, insts, r + 3);
        return Some(Operand::Tag(JsTag::Undefined));
    }
    if str_eq(method, "get") {
        if n == 0 {
            proof {
                crate::ir::lemma_append_cur_empty(pre);
            }
            return Some(Operand::Zero);
        }
        let a = vec![(Ty::Double, h), (Ty::I64, Operand::Reg(r))];
        assert(args_view(a@) =~= seq![(Ty::Double, hv), (Ty::I64, OperandV::Reg(r))]);
        let insts = vec![
            str_ptr_inst(r, copy_operand(&lowered_args[0])),
            call_inst(Some(r + 1), Ty::I64, "js_headers_get", a),
            Inst::NanboxString { dest: r + 2, val: Operand::Reg(r + 1) },
        ];
        assert(insts_view(insts@) =~= headers_insts(method@, hv, vv, r as int).unwrap().0);
        emit_insts(b, insts, r + 3);
        return Some(Operand::Reg(r + 2));
    }
    if str_eq(method, "has") || str_eq(method, "delete") {
        let is_has = str_eq(method, "has");
        if n == 0 {
            proof {
                crate::ir::lemma_append_cur_empty(pre);
            }
            return Some(Operand::Tag(if is_has { JsTag::False } else { JsTag::Undefined }));
        }
        let a = vec![(Ty::Double, h), (Ty::I64, Operand::Reg(r))];
        assert(args_view(a@) =~= seq![(Ty::Double, hv), (Ty::I64, OperandV::Reg(r))]);
        let insts = vec![
            str_ptr_inst(r, copy_operand(&lowered_args[0])),
            call_inst(Some(r + 1), Ty::Double, if is_has { "js_headers_has" } else { "js_headers_delete" }, a),
        ];
        assert(insts_view(insts@) =~= headers_insts(method@, hv, vv, r as int).unwrap().0);
        emit_insts(b, insts, r + 2);
        return Some(if is_has { Operand::Reg(r + 1) } else { Operand::Tag(JsTag::Undefined) });
    }
    if str_eq(method, "forEach") {
        if n == 0 {
            proof {
                crate::ir::lemma_append_cur_empty(pre);
            }
            return Some(Operand::Zero);
        }
        let a = vec![(Ty::Double, h), (Ty::Double, copy_operand(&lowered_args[0]))];
        assert(args_view(a@) =~= seq![(Ty::Double, hv), (Ty::Double, vv[0])]);
        let insts = vec![call_inst(Some(r), Ty::Double, "js_headers_for_each", a)];
        assert(insts_view(insts@) =~= headers_insts(method@, hv, vv, r as int).unwrap().0);
        emit_insts(b, insts, r + 1);
        return Some(Operand::Tag(JsTag::Undefined));
    }
    if str_eq(method, "keys") || str_eq(method, "values") || str_eq(method, "entries") {
        let runtime = if str_eq(method, "keys") {
            "js_headers_keys"
        } else if str_eq(method, "values") {
            "js_headers_values"
        } else {
            "js_headers_entries"
        };
        let a = vec![(Ty::Double, h)];
        assert(args_view(a@) =~= seq![(Ty::Double, hv)]);
        let insts = vec![call_inst(Some(r), Ty::Double, runtime, a)];
        assert(insts_view(insts@) =~= headers_insts(method@, hv, vv, r as int).unwrap().0);
        emit_insts(b, insts, r + 1);
        return Some(Operand::Reg(r));
    }
    None
}

/// Lowers an `axios` request method (no receiver) or response getter
/// (`recv` the lowered response); `None`, with nothing emitted, for any
/// other method.
fn lower_axios_method(b: &mut FnBuilder, method: &str, recv: Option<Operand>, lowered_args: &Vec<Operand>) -> (res: Option<
    Operand,
>)
    requires
        old(b)@.wf(),
        old(b)@.next_reg + 4 <= u64::MAX,
    ensures
        ({
            let rv = match recv {
                Some(h) => Some(h@),
                None => None,
            };
            match axios_insts(method@, rv, operands_view(lowered_args@), old(b)@.next_reg) {
                None => res is None && final(b)@ == old(b)@,
                Some((insts, result, next)) => res matches Some(o) && o@ == result && final(b)@ == (FnBuilderV {
                    next_reg: next,
                    ..old(b)@
                }).append_cur(insts),
            }
        }),
        final(b)@.wf(),
{
    let ghost vv = operands_view(lowered_args@);
    let r = b.peek_reg();
    match recv {
        None => {
            let is_get = str_eq(method, "get");
            let is_delete = str_eq(method, "delete");
            let is_post = str_eq(method, "post");
            let is_put = str_eq(method, "put");
            let is_patch = str_eq(method, "patch");
            if !(is_get || is_delete || is_post || is_put || is_patch) {
                return None;
            }
            let url = if n_gt(lowered_args, 0) { copy_operand(&lowered_args[0]) } else { Operand::Tag(JsTag::Undefined) };
            let ghost uv = url@;
            let ghost bodyv = if vv.len() > 1 { vv[1] } else { OperandV::Tag(JsTag::Undefined) };
            let args = if is_get || is_delete {
                vec![(Ty::I64, Operand::Reg(r))]
            } else {
                let body = if n_gt(lowered_args, 1) {
                    copy_operand(&lowered_args[1])
                } else {
                    Operand::Tag(JsTag::Undefined)
                };
                vec![(Ty::I64, Operand::Reg(r)), (Ty::Double, body)]
            };
            assert(args_view(args@) =~= if is_get || is_delete {
                seq![(Ty::I64, OperandV::Reg(r))]
            } else {
                seq![(Ty::I64, OperandV::Reg(r)), (Ty::Double, bodyv)]
            });
            proof {
                reveal_strlit("get");
                reveal_strlit("delete");
                reveal_strlit("post");
                reveal_strlit("put");
                reveal_strlit("patch");
            }
            let runtime = if is_get {
                "js_axios_get"
            } else if is_delete {
                "js_axios_delete"
            } else if is_post {
                "js_axios_post"
            } else if is_put {
                "js_axios_put"
            } else {
                "js_axios_patch"
            };
            let insts = vec![
                Inst::UnboxToI64 { dest: r, val: url },
                call_inst(Some(r + 1), Ty::I64, runtime, args),
                Inst::NanboxPointer { dest: r + 2, val: Operand::Reg(r + 1) },
            ];
            assert(insts_view(insts@) =~= axios_insts(method@, None, vv, r as int).unwrap().0);
            emit_insts(b, insts, r + 3);
            Some(Operand::Reg(r + 2))
        },
        Some(h) => {
            let ghost hv = h@;
            let is_status = str_eq(method, "status");
            let is_text = str_eq(method, "statusText");
            let is_data = str_eq(method, "data");
            if !(is_status || is_text || is_data) {
                return None;
            }
            let a = vec![(Ty::I64, Operand::Reg(r))];
            assert(args_view(a@) =~= seq![(Ty::I64, OperandV::Reg(r))]);
            proof {
                reveal_strlit("status");
                reveal_strlit("statusText");
                reveal_strlit("data");
            }
            if is_text {
                let insts = vec![
                    Inst::UnboxToI64 { dest: r, val: h },
                    call_inst(Some(r + 1), Ty::I64, "js_axios_response_status_text", a),
                    Inst::NanboxString { dest: r + 2, val: Operand::Reg(r + 1) },
                ];
                assert("status"@.len() == 6 && "statusText"@.len() == 10);
                assert(method@ != "status"@);
                assert(axios_insts(method@, Some(hv), vv, r as int).unwrap().0 == seq![
                    InstV::UnboxToI64 { dest: r, val: hv },
                    InstV::Call {
                        dest: Some((r + 1) as u64),
                        ret: Ty::I64,
                        callee: "js_axios_response_status_text"@,
                        args: seq![(Ty::I64, OperandV::Reg(r))],
                    },
                    InstV::NanboxString { dest: (r + 2) as u64, val: OperandV::Reg((r + 1) as u64) },
                ]);
                assert(insts_view(insts@) =~= axios_insts(method@, Some(hv), vv, r as int).unwrap().0);
                emit_insts(b, insts, r + 3);
                Some(Operand::Reg(r + 2))
            } else {
                let runtime = if is_status { "js_axios_response_status" } else { "js_axios_response_data_parsed" };
                let insts = vec![Inst::UnboxToI64 { dest: r, val: h }, call_inst(Some(r + 1), Ty::Double, runtime, a)];
                assert(insts_view(insts@) =~= axios_insts(method@, Some(hv), vv, r as int).unwrap().0);
                emit_insts(b, insts, r + 2);
                Some(Operand::Reg(r + 1))
            }
        },
    }
}

/// Whether `vals` has more than `k` elements.
fn n_gt(vals: &Vec<Operand>, k: usize) -> (res: bool)
    ensures
        res == (vals@.len() > k),
{
    vals.len() > k
}

/// Lowers a Web Fetch / Web Streams / axios method call `module.method`:
/// `recv` is the lowered receiver (absent for `Response.json(v)` and the
/// receiver-less axios request methods) and `lowered_args` the lowered
/// arguments. Handles are passed as `double`s; promise results come back
/// NaN-boxed as pointers and string results as strings; stream receivers
/// (and `pipeTo`'s destination) are first unwrapped to their handles.
/// `None` when no lowering here applies; a stream receiver has then been
/// unwrapped all the same, and nothing else emitted (see
/// `fetch_unhandled_state`).
pub fn lower_fetch_native_method(
    b: &mut FnBuilder,
    module: &str,
    method: &str,
    recv: Option<Operand>,
    lowered_args: &Vec<Operand>,
) -> (res: Option<Operand>)
    requires
        old(b)@.wf(),
        old(b)@.next_reg + 8 <= u64::MAX,
    ensures
        ({
            let rv = match recv {
                Some(h) => Some(h@),
                None => None,
            };
            match fetch_method_result(old(b)@, module@, method@, rv, operands_view(lowered_args@)) {
                None => res is None && final(b)@ == fetch_unhandled_state(old(b)@, module@, rv),
                Some((post, result)) => res matches Some(o) && o@ == result && final(b)@ == post,
            }
        }),
        final(b)@.wf(),
{
    let has_receiver = recv.is_some();
    if let Some(m) = handle_method(module, method, has_receiver) {
        return Some(emit_handle_method(b, m, recv, lowered_args));
    }
    proof {
        reveal_strlit("Headers");
        reveal_strlit("axios");
        reveal_strlit("readable_stream");
        reveal_strlit("writable_stream");
    }
    if str_eq(module, "Headers") {
        assert(module@.len() != "readable_stream"@.len() && module@.len() != "writable_stream"@.len());
        if let Some(h) = recv {
            return lower_headers_method(b, method, h, lowered_args);
        }
    }
    if str_eq(module, "axios") {
        assert(module@.len() != "readable_stream"@.len() && module@.len() != "writable_stream"@.len());
        return lower_axios_method(b, method, recv, lowered_args);
    }
    if str_eq(module, "readable_stream") || str_eq(module, "writable_stream") {
        if let Some(h) = recv {
            let r = b.fresh_reg();
            let ghost hv = h@;
            let a = vec![(Ty::Double, h)];
            assert(args_view(a@) =~= seq![(Ty::Double, hv)]);
            b.push(call_inst(Some(r), Ty::Double, "js_stream_unwrap_handle", a));
        }
    }
    None
}

/// The raw string pointer of a lowered value: `js_get_string_pointer_unified`.
pub fn get_raw_string_ptr(b: &mut FnBuilder, v: Operand) -> (res: Operand)
    requires
        old(b)@.wf(),
        old(b)@.next_reg < u64::MAX,
    ensures
        res@ == OperandV::Reg(old(b)@.next_reg as u64),
        final(b)@ == (FnBuilderV { next_reg: old(b)@.next_reg + 1, ..old(b)@ }).append_cur(
            seq![str_ptr_call(old(b)@.next_reg, v@)],
        ),
        final(b)@.wf(),
{
    let r = b.fresh_reg();
    b.push(str_ptr_inst(r, v));
    Operand::Reg(r)
}

/// The `js_headers_set` of entry `k` (its lowered key and value) on the
/// handle in register `h`, from register `q`.
pub open spec fn set_header_insts(key: OperandV, value: OperandV, h: int, q: int) -> Seq<InstV> {
    seq![
        str_ptr_call(q, key),
        str_ptr_call(q + 1, value),
        InstV::Call {
            dest: Some((q + 2) as u64),
            ret: Ty::Double,
            callee: "js_headers_set"@,
            args: seq![
                (Ty::Double, OperandV::Reg(h as u64)),
                (Ty::I64, OperandV::Reg(q as u64)),
                (Ty::I64, OperandV::Reg((q + 1) as u64)),
            ],
        },
    ]
}

/// The sets of every entry of `props` (lowered keys and values) on the
/// handle in register `h`, three registers each from `h + 1`.
pub open spec fn headers_object_insts(props: Seq<(OperandV, OperandV)>, h: int) -> Seq<InstV>
    decreases props.len(),
{
    if props.len() == 0 {
        Seq::empty()
    } else {
        let k = props.len() - 1;
        headers_object_insts(props.drop_last(), h) + set_header_insts(props[k].0, props[k].1, h, h + 1 + 3 * k)
    }
}

/// The views of lowered key/value pairs.
pub open spec fn pairs_view(props: Seq<(Operand, Operand)>) -> Seq<(OperandV, OperandV)> {
    props.map_values(|p: (Operand, Operand)| (p.0@, p.1@))
}

/// The instructions that build a `Headers` handle into register `r` from
/// an inline object literal's entries (lowered keys and values):
/// `js_headers_new()`, then a `js_headers_set` of each entry, in order.
pub(crate) fn headers_build_insts(props: &Vec<(Operand, Operand)>, r: u64) -> (insts: Vec<Inst>)
    requires
        r + 1 + 3 * props@.len() <= u64::MAX,
    ensures
        insts_view(insts@) == seq![InstV::Call { dest: Some(r), ret: Ty::Double, callee: "js_headers_new"@, args: seq![] }]
            + headers_object_insts(pairs_view(props@), r as int),
{
    let ghost pv = pairs_view(props@);
    let none: Vec<crate::ir::Arg> = Vec::new();
    assert(args_view(none@) =~= Seq::<(Ty, OperandV)>::empty());
    let mut insts: Vec<Inst> = Vec::new();
    insts.push(call_inst(Some(r), Ty::Double, "js_headers_new", none));
    let ghost first = insts_view(insts@);
    assert(first =~= seq![InstV::Call { dest: Some(r), ret: Ty::Double, callee: "js_headers_new"@, args: seq![] }]);
    assert(headers_object_insts(pv.take(0), r as int) =~= Seq::<InstV>::empty());
    let mut k: usize = 0;
    while k < props.len()
        invariant
            k <= props@.len(),
            pv == pairs_view(props@),
            r + 1 + 3 * props@.len() <= u64::MAX,
            insts_view(insts@) == first + headers_object_insts(pv.take(k as int), r as int),
        decreases props@.len() - k,
    {
        let q = r + 1 + 3 * (k as u64);
        let ghost before = insts@;
        insts.push(str_ptr_inst(q, crate::ir::copy_operand(&props[k].0)));
        insts.push(str_ptr_inst(q + 1, crate::ir::copy_operand(&props[k].1)));
        let a = vec![(Ty::Double, Operand::Reg(r)), (Ty::I64, Operand::Reg(q)), (Ty::I64, Operand::Reg(q + 1))];
        assert(args_view(a@) =~= seq![
            (Ty::Double, OperandV::Reg(r)),
            (Ty::I64, OperandV::Reg(q)),
            (Ty::I64, OperandV::Reg((q + 1) as u64)),
        ]);
        insts.push(call_inst(Some(q + 2), Ty::Double, "js_headers_set", a));
        proof {
            let t = pv.take(k + 1);
            assert(t.drop_last() =~= pv.take(k as int));
            assert(t[k as int] == pv[k as int]);
            assert(pv[k as int] == (props@[k as int].0@, props@[k as int].1@));
            assert(insts_view(insts@) =~= insts_view(before) + set_header_insts(pv[k as int].0, pv[k as int].1, r as int, q as int));
        }
        k = k + 1;
    }
    assert(pv.take(pv.len() as int) =~= pv);
    insts
}

/// Builds a `Headers` handle from an inline object literal, given its
/// entries' lowered keys and values: `js_headers_new()`, then a
/// `js_headers_set` of each entry's key and value string pointers, in
/// order. Returns the handle (a raw `double`, not NaN-boxed).
pub fn build_headers_from_object(b: &mut FnBuilder, props: &Vec<(Operand, Operand)>) -> (res: Operand)
    requires
        old(b)@.wf(),
        old(b)@.next_reg + 1 + 3 * props@.len() <= u64::MAX,
    ensures
        ({
            let r = old(b)@.next_reg;
            &&& res@ == OperandV::Reg(r as u64)
            &&& final(b)@ == (FnBuilderV { next_reg: r + 1 + 3 * props@.len(), ..old(b)@ }).append_cur(
                seq![InstV::Call { dest: Some(r as u64), ret: Ty::Double, callee: "js_headers_new"@, args: seq![] }]
                    + headers_object_insts(pairs_view(props@), r),
            )
        }),
        final(b)@.wf(),
{
    let r = b.peek_reg();
    let insts = headers_build_insts(props, r);
    b.reserve_regs(1 + 3 * (props.len() as u64));
    b.push_all(insts);
    Operand::Reg(r)
}

} // verus!
