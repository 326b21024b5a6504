//! `new` of the Web API classes whose construction reads an options
//! object literal: the Web Streams (`ReadableStream`, `WritableStream`,
//! `TransformStream`, with their callbacks and queuing strategy),
//! `Headers`, and the `WebSocket` client.

use vstd::prelude::*;

use crate::fetch::{build_headers_from_object, headers_object_insts, pairs_view};
use crate::ir::{args_view, copy_operand, insts_view, DeclareV, FnBuilder, FnBuilderV, Inst, InstV, JsTag, Operand, OperandV, Ty};
use crate::text::str_eq;

verus! {

/// The value of the last property `key` of an options literal, as
/// `(key, lowered value)` pairs, or `default`.
pub open spec fn last_value_or(props: Seq<(String, Operand)>, key: Seq<char>, default: OperandV) -> OperandV
    decreases props.len(),
{
    if props.len() == 0 {
        default
    } else if props.last().0@ == key {
        props.last().1@
    } else {
        last_value_or(props.drop_last(), key, default)
    }
}

/// The value of the last property `key` of an argument that is an inline
/// options literal, or `default` when it has none or is absent or no
/// such literal.
pub open spec fn option_value(props: Option<Seq<(String, Operand)>>, key: Seq<char>, default: OperandV) -> OperandV {
    match props {
        Some(p) => last_value_or(p, key, default),
        None => default,
    }
}

/// The view of an optional options literal.
pub open spec fn props_view(props: Option<&Vec<(String, Operand)>>) -> Option<Seq<(String, Operand)>> {
    match props {
        Some(p) => Some(p@),
        None => None,
    }
}

/// The value of the last property `key` of an options literal, or
/// `default` (see `option_value`).
pub fn option_value_exec(props: Option<&Vec<(String, Operand)>>, key: &str, default: Operand) -> (res: Operand)
    ensures
        res@ == option_value(props_view(props), key@, default@),
{
    match props {
        None => default,
        Some(p) => {
            let mut i: usize = p.len();
            assert(p@.take(p@.len() as int) =~= p@);
            while i > 0
                invariant
                    i <= p@.len(),
                    props_view(props) == Some(p@),
                    last_value_or(p@, key@, default@) == last_value_or(p@.take(i as int), key@, default@),
                decreases i,
            {
                let ghost t = p@.take(i as int);
                assert(t.drop_last() =~= p@.take(i - 1));
                assert(t.last() == p@[i - 1]);
                if str_eq(p[i - 1].0.as_str(), key) {
                    return copy_operand(&p[i - 1].1);
                }
                i = i - 1;
            }
            default
        },
    }
}

/// A Web Streams class.
#[derive(Copy, Clone, Debug, PartialEq, Eq, Structural)]
pub enum StreamCtor {
    Readable,
    Writable,
    Transform,
}

/// The runtime constructor of a stream class.
pub open spec fn stream_runtime(k: StreamCtor) -> Seq<char> {
    match k {
        StreamCtor::Readable => "js_readable_stream_new"@,
        StreamCtor::Writable => "js_writable_stream_new"@,
        StreamCtor::Transform => "js_transform_stream_new"@,
    }
}

/// The callbacks a stream class's underlying source, sink or transformer
/// may define, in the order its constructor takes them.
pub open spec fn stream_callbacks(k: StreamCtor) -> Seq<Seq<char>> {
    match k {
        StreamCtor::Readable => seq!["start"@, "pull"@, "cancel"@],
        StreamCtor::Writable => seq!["write"@, "close"@, "abort"@],
        StreamCtor::Transform => seq!["transform"@, "flush"@],
    }
}

/// The arguments of a stream constructor: each callback of the first
/// argument's options literal (`undefined` when missing) and the second
/// argument's `highWaterMark` (`1.0` when missing).
pub open spec fn stream_args(
    k: StreamCtor,
    source: Option<Seq<(String, Operand)>>,
    strategy: Option<Seq<(String, Operand)>>,
) -> Seq<(Ty, OperandV)> {
    stream_callbacks(k).map_values(|c: Seq<char>| (Ty::Double, option_value(source, c, OperandV::Tag(JsTag::Undefined))))
        .push((Ty::Double, option_value(strategy, "highWaterMark"@, OperandV::Num(1))))
}

/// Lowers `new ReadableStream(source, strategy)` (and the writable and
/// transform streams): the runtime constructor called with the callbacks
/// of `source` and the high-water mark of `strategy` (see `stream_args`;
/// each is the argument's properties with their lowered values when it is
/// an inline object literal). The handle is a plain `double`.
pub fn lower_new_stream(
    b: &mut FnBuilder,
    k: StreamCtor,
    source: Option<&Vec<(String, Operand)>>,
    strategy: Option<&Vec<(String, Operand)>>,
) -> (res: Operand)
    requires
        old(b)@.wf(),
        old(b)@.next_reg < u64::MAX,
    ensures
        res@ == OperandV::Reg(old(b)@.next_reg as u64),
        final(b)@ == (FnBuilderV { next_reg: old(b)@.next_reg + 1, ..old(b)@ }).append_cur(
            seq![
                InstV::Call {
                    dest: Some(old(b)@.next_reg as u64),
                    ret: Ty::Double,
                    callee: stream_runtime(k),
                    args: stream_args(k, props_view(source), props_view(strategy)),
                },
            ],
        ),
        final(b)@.wf(),
{
    let ghost sv = props_view(source);
    let ghost qv = props_view(strategy);
    let undef = JsTag::Undefined;
    let (runtime, args) = match k {
        StreamCtor::Readable => {
            let a = option_value_exec(source, "start", Operand::Tag(undef));
            let p = option_value_exec(source, "pull", Operand::Tag(undef));
            let c = option_value_exec(source, "cancel", Operand::Tag(undef));
            let h = option_value_exec(strategy, "highWaterMark", Operand::Num(1));
            let ghost want = seq![(Ty::Double, a@), (Ty::Double, p@), (Ty::Double, c@), (Ty::Double, h@)];
            let args = vec![(Ty::Double, a), (Ty::Double, p), (Ty::Double, c), (Ty::Double, h)];
            assert(args_view(args@) =~= want);
            assert(want =~= stream_args(k, sv, qv));
            ("js_readable_stream_new", args)
        },
        StreamCtor::Writable => {
            let w = option_value_exec(source, "write", Operand::Tag(undef));
            let c = option_value_exec(source, "close", Operand::Tag(undef));
            let a = option_value_exec(source, "abort", Operand::Tag(undef));
            let h = option_value_exec(strategy, "highWaterMark", Operand::Num(1));
            let ghost want = seq![(Ty::Double, w@), (Ty::Double, c@), (Ty::Double, a@), (Ty::Double, h@)];
            let args = vec![(Ty::Double, w), (Ty::Double, c), (Ty::Double, a), (Ty::Double, h)];
            assert(args_view(args@) =~= want);
            assert(want =~= stream_args(k, sv, qv));
            ("js_writable_stream_new", args)
        },
        StreamCtor::Transform => {
            let t = option_value_exec(source, "transform", Operand::Tag(undef));
            let f = option_value_exec(source, "flush", Operand::Tag(undef));
            let h = option_value_exec(strategy, "highWaterMark", Operand::Num(1));
            let ghost want = seq![(Ty::Double, t@), (Ty::Double, f@), (Ty::Double, h@)];
            let args = vec![(Ty::Double, t), (Ty::Double, f), (Ty::Double, h)];
            assert(args_view(args@) =~= want);
            assert(want =~= stream_args(k, sv, qv));
            ("js_transform_stream_new", args)
        },
    };
    let r = b.call(Ty::Double, runtime, args);
    Operand::Reg(r)
}

/// Lowers `new Headers(init)`: a `Headers` handle built from the entries
/// of `init` (lowered keys and values) when it is an inline object
/// literal, else an empty one (see `build_headers_from_object`).
pub fn lower_new_headers(b: &mut FnBuilder, init: Option<&Vec<(Operand, Operand)>>) -> (res: Operand)
    requires
        old(b)@.wf(),
        old(b)@.next_reg + 1 + 3 * (match init { Some(p) => p@.len(), None => 0 }) <= u64::MAX,
    ensures
        ({
            let r = old(b)@.next_reg;
            let entries = match init {
                Some(p) => pairs_view(p@),
                None => Seq::empty(),
            };
            &&& res@ == OperandV::Reg(r as u64)
            &&& final(b)@ == (FnBuilderV { next_reg: r + 1 + 3 * entries.len(), ..old(b)@ }).append_cur(
                seq![InstV::Call { dest: Some(r as u64), ret: Ty::Double, callee: "js_headers_new"@, args: seq![] }]
                    + headers_object_insts(entries, r),
            )
        }),
        final(b)@.wf(),
{
    match init {
        Some(p) => build_headers_from_object(b, p),
        None => {
            let empty: Vec<(Operand, Operand)> = Vec::new();
            assert(pairs_view(empty@) =~= Seq::<(OperandV, OperandV)>::empty());
            build_headers_from_object(b, &empty)
        },
    }
}

/// Lowers `new WebSocket(url)`: `js_ws_connect_start` (declared) with the
/// URL (`undefined` when absent) yields the connection id as a `double`,
/// converted to `i64` and NaN-boxed as a pointer.
pub fn lower_new_websocket(b: &mut FnBuilder, url: Option<Operand>) -> (res: Operand)
    requires
        old(b)@.wf(),
        old(b)@.next_reg + 3 <= u64::MAX,
    ensures
        ({
            let r = old(b)@.next_reg;
            let u = match url {
                Some(v) => v@,
                None => OperandV::Tag(JsTag::Undefined),
            };
            &&& res@ == OperandV::Reg((r + 2) as u64)
            &&& final(b)@ == (FnBuilderV {
                next_reg: r + 3,
                declares: old(b)@.declares.push(
                    DeclareV { name: "js_ws_connect_start"@, ret: Ty::Double, params: seq![Ty::Double] },
                ),
                ..old(b)@
            }).append_cur(
                seq![
                    InstV::Call {
                        dest: Some(r as u64),
                        ret: Ty::Double,
                        callee: "js_ws_connect_start"@,
                        args: seq![(Ty::Double, u)],
                    },
                    InstV::Fptosi { dest: (r + 1) as u64, to: Ty::I64, val: OperandV::Reg(r as u64) },
                    InstV::NanboxPointer { dest: (r + 2) as u64, val: OperandV::Reg((r + 1) as u64) },
                ],
            )
        }),
        final(b)@.wf(),
{
    let u = match url {
        Some(v) => v,
        None => Operand::Tag(JsTag::Undefined),
    };
    let ghost uv = u@;
    let params = vec![Ty::Double];
    assert(params@ =~= seq![Ty::Double]);
    b.declare("js_ws_connect_start", Ty::Double, params);
    let r = b.reserve_regs(3);
    let args = vec![(Ty::Double, u)];
    assert(args_view(args@) =~= seq![(Ty::Double, uv)]);
    let insts = vec![
        Inst::Call { dest: Some(r), ret: Ty::Double, callee: String::from_str("js_ws_connect_start"), args },
        Inst::Fptosi { dest: r + 1, to: Ty::I64, val: Operand::Reg(r) },
        Inst::NanboxPointer { dest: r + 2, val: Operand::Reg(r + 1) },
    ];
    assert(insts_view(insts@) =~= seq![
        InstV::Call { dest: Some(r), ret: Ty::Double, callee: "js_ws_connect_start"@, args: seq![(Ty::Double, uv)] },
        InstV::Fptosi { dest: (r + 1) as u64, to: Ty::I64, val: OperandV::Reg(r) },
        InstV::NanboxPointer { dest: (r + 2) as u64, val: OperandV::Reg((r + 1) as u64) },
    ]);
    b.push_all(insts);
    Operand::Reg(r + 2)
}

} // verus!
