//! Method calls on `Map` and `Set` receivers reached through a property
//! (`this.handlers.get(k)`), lowered straight to the collection runtime.

use vstd::prelude::*;

use crate::ir::{args_view, insts_view, operands_view, Arg, FnBuilder, FnBuilderV, Inst, InstV, JsTag, Operand, OperandV, Ty};
use crate::text::str_eq;

verus! {

/// The static kind of a collection receiver.
#[derive(Copy, Clone, Debug, PartialEq, Eq, Structural)]
pub enum CollectionKind {
    MapObj,
    SetObj,
}

/// How the runtime call's result comes back.
#[derive(Copy, Clone, Debug, PartialEq, Eq, Structural)]
pub enum CollRet {
    /// `void`.
    Void,
    /// A JS value (`double`).
    Value,
    /// An `i32` truth value, NaN-boxed as a boolean.
    Bool,
    /// An array pointer (`i64`), NaN-boxed as a pointer.
    Array,
}

/// What a `void` collection call yields.
#[derive(Copy, Clone, Debug, PartialEq, Eq, Structural)]
pub enum CollYield {
    /// The receiver itself (`m.set(k, v)` and `s.add(v)` chain).
    Receiver,
    Undefined,
    /// `0.0` (`forEach`).
    Zero,
}

/// A collection method call: the runtime function, how many of the
/// arguments it takes after the receiver's handle, its result, and what a
/// `void` call yields.
#[derive(Copy, Clone, Debug)]
pub struct CollectionCall {
    pub runtime: &'static str,
    pub nvals: usize,
    pub ret: CollRet,
    pub yields: CollYield,
}

/// The call of `kind.property(args)` with `n` arguments, as
/// `(runtime, values passed, result kind, void yield)`; `None` when no
/// collection lowering applies.
pub open spec fn collection_call_spec(kind: CollectionKind, p: Seq<char>, n: nat) -> Option<(Seq<char>, nat, CollRet, CollYield)> {
    match kind {
        CollectionKind::MapObj => if p == "set"@ && n == 2 {
            Some(("js_map_set"@, 2, CollRet::Void, CollYield::Receiver))
        } else if p == "get"@ && n == 1 {
            Some(("js_map_get"@, 1, CollRet::Value, CollYield::Undefined))
        } else if p == "has"@ && n == 1 {
            Some(("js_map_has"@, 1, CollRet::Bool, CollYield::Undefined))
        } else if p == "delete"@ && n == 1 {
            Some(("js_map_delete"@, 1, CollRet::Bool, CollYield::Undefined))
        } else if p == "clear"@ && n == 0 {
            Some(("js_map_clear"@, 0, CollRet::Void, CollYield::Undefined))
        } else if p == "entries"@ && n == 0 {
            Some(("js_map_entries"@, 0, CollRet::Array, CollYield::Undefined))
        } else if p == "keys"@ && n == 0 {
            Some(("js_map_keys"@, 0, CollRet::Array, CollYield::Undefined))
        } else if p == "values"@ && n == 0 {
            Some(("js_map_values"@, 0, CollRet::Array, CollYield::Undefined))
        } else if p == "forEach"@ && n >= 1 {
            Some(("js_map_foreach"@, 1, CollRet::Void, CollYield::Zero))
        } else {
            None
        },
        CollectionKind::SetObj => if p == "add"@ && n == 1 {
            Some(("js_set_add"@, 1, CollRet::Void, CollYield::Receiver))
        } else if p == "has"@ && n == 1 {
            Some(("js_set_has"@, 1, CollRet::Bool, CollYield::Undefined))
        } else if p == "delete"@ && n == 1 {
            Some(("js_set_delete"@, 1, CollRet::Bool, CollYield::Undefined))
        } else if p == "clear"@ && n == 0 {
            Some(("js_set_clear"@, 0, CollRet::Void, CollYield::Undefined))
        } else if (p == "values"@ || p == "keys"@) && n == 0 {
            Some(("js_set_to_array"@, 0, CollRet::Array, CollYield::Undefined))
        } else if p == "forEach"@ && n >= 1 {
            Some(("js_set_foreach"@, 1, CollRet::Void, CollYield::Zero))
        } else {
            None
        },
    }
}

/// The view of a collection call.
pub open spec fn collection_call_view(c: CollectionCall) -> (Seq<char>, nat, CollRet, CollYield) {
    (c.runtime@, c.nvals as nat, c.ret, c.yields)
}

fn call(runtime: &'static str, nvals: usize, ret: CollRet, yields: CollYield) -> (res: CollectionCall)
    ensures
        res == (CollectionCall { runtime, nvals, ret, yields }),
{
    CollectionCall { runtime, nvals, ret, yields }
}

/// The call of `kind.property(args)` with `n` arguments, if a collection
/// lowering applies.
pub fn collection_call(kind: CollectionKind, p: &str, n: usize) -> (res: Option<CollectionCall>)
    ensures
        match (res, collection_call_spec(kind, p@, n as nat)) {
            (Some(c), Some(s)) => collection_call_view(c) == s,
            (None, None) => true,
            _ => false,
        },
{
    match kind {
        CollectionKind::MapObj => if str_eq(p, "set") && n == 2 {
            Some(call("js_map_set", 2, CollRet::Void, CollYield::Receiver))
        } else if str_eq(p, "get") && n == 1 {
            Some(call("js_map_get", 1, CollRet::Value, CollYield::Undefined))
        } else if str_eq(p, "has") && n == 1 {
            Some(call("js_map_has", 1, CollRet::Bool, CollYield::Undefined))
        } else if str_eq(p, "delete") && n == 1 {
            Some(call("js_map_delete", 1, CollRet::Bool, CollYield::Undefined))
        } else if str_eq(p, "clear") && n == 0 {
            Some(call("js_map_clear", 0, CollRet::Void, CollYield::Undefined))
        } else if str_eq(p, "entries") && n == 0 {
            Some(call("js_map_entries", 0, CollRet::Array, CollYield::Undefined))
        } else if str_eq(p, "keys") && n == 0 {
            Some(call("js_map_keys", 0, CollRet::Array, CollYield::Undefined))
        } else if str_eq(p, "values") && n == 0 {
            Some(call("js_map_values", 0, CollRet::Array, CollYield::Undefined))
        } else if str_eq(p, "forEach") && n >= 1 {
            Some(call("js_map_foreach", 1, CollRet::Void, CollYield::Zero))
        } else {
            None
        },
        CollectionKind::SetObj => if str_eq(p, "add") && n == 1 {
            Some(call("js_set_add", 1, CollRet::Void, CollYield::Receiver))
        } else if str_eq(p, "has") && n == 1 {
            Some(call("js_set_has", 1, CollRet::Bool, CollYield::Undefined))
        } else if str_eq(p, "delete") && n == 1 {
            Some(call("js_set_delete", 1, CollRet::Bool, CollYield::Undefined))
        } else if str_eq(p, "clear") && n == 0 {
            Some(call("js_set_clear", 0, CollRet::Void, CollYield::Undefined))
        } else if (str_eq(p, "values") || str_eq(p, "keys")) && n == 0 {
            Some(call("js_set_to_array", 0, CollRet::Array, CollYield::Undefined))
        } else if str_eq(p, "forEach") && n >= 1 {
            Some(call("js_set_foreach", 1, CollRet::Void, CollYield::Zero))
        } else {
            None
        },
    }
}

/// The function state and result of a collection call from `pre`: the
/// receiver's handle unboxed, the runtime call with the handle and the
/// first `nvals` arguments, and the result boxed per its kind.
pub open spec fn collection_call_result(
    pre: FnBuilderV,
    c: (Seq<char>, nat, CollRet, CollYield),
    recv: OperandV,
    vals: Seq<OperandV>,
) -> (FnBuilderV, OperandV) {
    let (runtime, k, ret, yields) = c;
    let r = pre.next_reg;
    let args = seq![(Ty::I64, OperandV::Reg(r as u64))] + vals.take(k as int).map_values(|v: OperandV| (Ty::Double, v));
    let unbox = InstV::UnboxToI64 { dest: r as u64, val: recv };
    match ret {
        CollRet::Void => (
            (FnBuilderV { next_reg: r + 1, ..pre }).append_cur(
                seq![unbox, InstV::Call { dest: None, ret: Ty::Void, callee: runtime, args }],
            ),
            match yields {
                CollYield::Receiver => recv,
                CollYield::Undefined => OperandV::Tag(JsTag::Undefined),
                CollYield::Zero => OperandV::Zero,
            },
        ),
        CollRet::Value => (
            (FnBuilderV { next_reg: r + 2, ..pre }).append_cur(
                seq![unbox, InstV::Call { dest: Some((r + 1) as u64), ret: Ty::Double, callee: runtime, args }],
            ),
            OperandV::Reg((r + 1) as u64),
        ),
        CollRet::Bool => (
            (FnBuilderV { next_reg: r + 3, ..pre }).append_cur(
                seq![
                    unbox,
                    InstV::Call { dest: Some((r + 1) as u64), ret: Ty::I32, callee: runtime, args },
                    InstV::NanboxBool { dest: (r + 2) as u64, val: OperandV::Reg((r + 1) as u64) },
                ],
            ),
            OperandV::Reg((r + 2) as u64),
        ),
        CollRet::Array => (
            (FnBuilderV { next_reg: r + 3, ..pre }).append_cur(
                seq![
                    unbox,
                    InstV::Call { dest: Some((r + 1) as u64), ret: Ty::I64, callee: runtime, args },
                    InstV::NanboxPointer { dest: (r + 2) as u64, val: OperandV::Reg((r + 1) as u64) },
                ],
            ),
            OperandV::Reg((r + 2) as u64),
        ),
    }
}

/// The handle and the first `k` values as call arguments.
fn handle_and_values(h: u64, vals: &Vec<Operand>, k: usize) -> (res: Vec<Arg>)
    requires
        k <= vals@.len(),
    ensures
        args_view(res@) == seq![(Ty::I64, OperandV::Reg(h))] + operands_view(vals@).take(k as int).map_values(
            |v: OperandV| (Ty::Double, v),
        ),
{
    let ghost want = seq![(Ty::I64, OperandV::Reg(h))] + operands_view(vals@).take(k as int).map_values(
        |v: OperandV| (Ty::Double, v),
    );
    let mut out: Vec<Arg> = vec![(Ty::I64, Operand::Reg(h))];
    let mut i: usize = 0;
    while i < k
        invariant
            i <= k,
            k <= vals@.len(),
            want == seq![(Ty::I64, OperandV::Reg(h))] + operands_view(vals@).take(k as int).map_values(
                |v: OperandV| (Ty::Double, v),
            ),
            args_view(out@) =~= want.take(i + 1),
        decreases k - i,
    {
        let ghost prev = out@;
        out.push((Ty::Double, crate::ir::copy_operand(&vals[i])));
        proof {
            assert(args_view(out@) =~= args_view(prev).push(want[i + 1]));
            assert(want.take(i + 2) =~= want.take(i + 1).push(want[i + 1]));
        }
        i = i + 1;
    }
    assert(want.take(k + 1) =~= want);
    out
}

/// Lowers `recv.property(args)` on a receiver statically known to be a
/// `Map` or a `Set` (`kind`), when a collection lowering applies (see
/// `collection_call`): `recv_box` is the lowered receiver and
/// `lowered_args` the lowered arguments (`forEach` passes only the
/// callback). `None`, with nothing emitted, otherwise.
pub fn lower_collection_method_call(
    b: &mut FnBuilder,
    kind: CollectionKind,
    property: &str,
    recv_box: Operand,
    lowered_args: &Vec<Operand>,
) -> (res: Option<Operand>)
    requires
        old(b)@.wf(),
        old(b)@.next_reg + 3 <= u64::MAX,
    ensures
        match collection_call_spec(kind, property@, lowered_args@.len()) {
            None => res is None && final(b)@ == old(b)@,
            Some(c) => {
                let (post, result) = collection_call_result(old(b)@, c, recv_box@, operands_view(lowered_args@));
                res matches Some(o) && o@ == result && final(b)@ == post
            },
        },
        final(b)@.wf(),
{
    let c = match collection_call(kind, property, lowered_args.len()) {
        Some(c) => c,
        None => return None,
    };
    let ghost rv = recv_box@;
    let ghost vv = operands_view(lowered_args@);
    let ghost want_args = seq![(Ty::I64, OperandV::Reg(old(b)@.next_reg as u64))] + vv.take(c.nvals as int).map_values(
        |v: OperandV| (Ty::Double, v),
    );
    match c.ret {
        CollRet::Void => {
            let r = b.reserve_regs(1);
            let args = handle_and_values(r, lowered_args, c.nvals);
            let result = match c.yields {
                CollYield::Receiver => crate::ir::copy_operand(&recv_box),
                CollYield::Undefined => Operand::Tag(JsTag::Undefined),
                CollYield::Zero => Operand::Zero,
            };
            let insts = vec![
                Inst::UnboxToI64 { dest: r, val: recv_box },
                Inst::Call { dest: None, ret: Ty::Void, callee: String::from_str(c.runtime), args },
            ];
            assert(insts_view(insts@) =~= seq![
                InstV::UnboxToI64 { dest: r, val: rv },
                InstV::Call { dest: None, ret: Ty::Void, callee: c.runtime@, args: want_args },
            ]);
            b.push_all(insts);
            Some(result)
        },
        CollRet::Value => {
            let r = b.reserve_regs(2);
            let args = handle_and_values(r, lowered_args, c.nvals);
            let insts = vec![
                Inst::UnboxToI64 { dest: r, val: recv_box },
                Inst::Call { dest: Some(r + 1), ret: Ty::Double, callee: String::from_str(c.runtime), args },
            ];
            assert(insts_view(insts@) =~= seq![
                InstV::UnboxToI64 { dest: r, val: rv },
                InstV::Call { dest: Some((r + 1) as u64), ret: Ty::Double, callee: c.runtime@, args: want_args },
            ]);
            b.push_all(insts);
            Some(Operand::Reg(r + 1))
        },
        CollRet::Bool => {
            let r = b.reserve_regs(3);
            let args = handle_and_values(r, lowered_args, c.nvals);
            let insts = vec![
                Inst::UnboxToI64 { dest: r, val: recv_box },
                Inst::Call { dest: Some(r + 1), ret: Ty::I32, callee: String::from_str(c.runtime), args },
                Inst::NanboxBool { dest: r + 2, val: Operand::Reg(r + 1) },
            ];
            assert(insts_view(insts@) =~= seq![
                InstV::UnboxToI64 { dest: r, val: rv },
                InstV::Call { dest: Some((r + 1) as u64), ret: Ty::I32, callee: c.runtime@, args: want_args },
                InstV::NanboxBool { dest: (r + 2) as u64, val: OperandV::Reg((r + 1) as u64) },
            ]);
            b.push_all(insts);
            Some(Operand::Reg(r + 2))
        },
        CollRet::Array => {
            let r = b.reserve_regs(3);
            let args = handle_and_values(r, lowered_args, c.nvals);
            let insts = vec![
                Inst::UnboxToI64 { dest: r, val: recv_box },
                Inst::Call { dest: Some(r + 1), ret: Ty::I64, callee: String::from_str(c.runtime), args },
                Inst::NanboxPointer { dest: r + 2, val: Operand::Reg(r + 1) },
            ];
            assert(insts_view(insts@) =~= seq![
                InstV::UnboxToI64 { dest: r, val: rv },
                InstV::Call { dest: Some((r + 1) as u64), ret: Ty::I64, callee: c.runtime@, args: want_args },
                InstV::NanboxPointer { dest: (r + 2) as u64, val: OperandV::Reg((r + 1) as u64) },
            ]);
            b.push_all(insts);
            Some(Operand::Reg(r + 2))
        },
    }
}

} // verus!
