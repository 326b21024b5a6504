//! Emission of call arguments: JS arrays built from lowered values (rest
//! parameters, `arguments` objects, spread printers), and the parameter
//! slots of a direct call materialized as operands.

use vstd::prelude::*;

use crate::call_args::ArgSlot;
use crate::ir::{
    args_view, copy_operand, lemma_append_cur_empty, lemma_append_cur_twice, operands_view, Arg, FnBuilder,
    FnBuilderV, Inst, InstV, JsTag, Operand, OperandV, Ty,
};

verus! {

/// The instructions that build a JS array of `vals` starting at register
/// `r`: `js_array_alloc(len)` into `r`, then one `js_array_push_f64` per
/// value, each into the next register and taking the previous array.
pub open spec fn array_insts(vals: Seq<OperandV>, r: int) -> Seq<InstV> {
    seq![
        InstV::Call {
            dest: Some(r as u64),
            ret: Ty::I64,
            callee: "js_array_alloc"@,
            args: seq![(Ty::I32, OperandV::Int(vals.len() as u64))],
        },
    ] + Seq::new(
        vals.len(),
        |k: int|
            InstV::Call {
                dest: Some((r + 1 + k) as u64),
                ret: Ty::I64,
                callee: "js_array_push_f64"@,
                args: seq![(Ty::I64, OperandV::Reg((r + k) as u64)), (Ty::Double, vals[k])],
            },
    )
}

/// Emits a JS array of `vals[from..]` (empty when `from` is past the end) and
/// returns the register holding the array pointer.
pub fn emit_js_array(b: &mut FnBuilder, vals: &Vec<Operand>, from: usize) -> (arr: u64)
    requires
        old(b)@.wf(),
        old(b)@.next_reg + vals@.len() + 1 <= u64::MAX,
        vals@.len() <= u32::MAX,
    ensures
        ({
            let rest = operands_view(vals@).skip(if from < vals@.len() { from as int } else { vals@.len() as int });
            &&& arr == old(b)@.next_reg + rest.len()
            &&& final(b)@ == (FnBuilderV { next_reg: old(b)@.next_reg + rest.len() + 1, ..old(b)@ }).append_cur(
                array_insts(rest, old(b)@.next_reg),
            )
        }),
        final(b)@.wf(),
{
    let ghost pre = b@;
    let vl = vals.len();
    let start = if from < vl { from } else { vl };
    let count = vals.len() - start;
    let ghost rest = operands_view(vals@).skip(start as int);
    let ghost want = array_insts(rest, pre.next_reg);
    let a = vec![(Ty::I32, Operand::Int(count as u64))];
    assert(args_view(a@) =~= want[0]->Call_args);
    let mut cur = b.call(Ty::I64, "js_array_alloc", a);
    proof {
        assert(want.take(1) =~= seq![want[0]]);
    }
    let mut i: usize = 0;
    while i < count
        invariant
            pre.wf(),
            start + count == vals@.len(),
            vl == vals@.len(),
            i <= count,
            rest == operands_view(vals@).skip(start as int),
            want == array_insts(rest, pre.next_reg),
            cur == pre.next_reg + i,
            pre.next_reg + vals@.len() + 1 <= u64::MAX,
            b@ == (FnBuilderV { next_reg: pre.next_reg + i + 1, ..pre }).append_cur(want.take(i + 1)),
        decreases count - i,
    {
        let ghost st = FnBuilderV { next_reg: pre.next_reg + i + 2, ..pre };
        let v = copy_operand(&vals[start + i]);
        let a = vec![(Ty::I64, Operand::Reg(cur)), (Ty::Double, v)];
        assert(args_view(a@) =~= want[i + 1]->Call_args);
        cur = b.call(Ty::I64, "js_array_push_f64", a);
        proof {
            lemma_append_cur_twice(st, want.take(i + 1), seq![want[i + 1]]);
            assert(want.take(i + 1) + seq![want[i + 1]] =~= want.take(i + 2));
        }
        i = i + 1;
    }
    proof {
        assert(want.take(count + 1) =~= want);
    }
    cur
}

/// The operands and instructions of the parameter slots `slots`, the
/// registers starting at `r`: `(instructions, operands, next register)`.
/// A rest or `arguments` slot builds its array, optionally marks it as an
/// `arguments` object, and NaN-boxes the pointer.
pub open spec fn slots_result(slots: Seq<ArgSlot>, vals: Seq<OperandV>, r: int) -> (Seq<InstV>, Seq<OperandV>, int)
    decreases slots.len(),
{
    if slots.len() == 0 {
        (Seq::empty(), Seq::empty(), r)
    } else {
        let (insts, ops, next) = slots_result(slots.drop_last(), vals, r);
        match slots.last() {
            ArgSlot::Arg(i) => (insts, ops.push(vals[i as int]), next),
            ArgSlot::Undefined => (insts, ops.push(OperandV::Tag(JsTag::Undefined)), next),
            ArgSlot::Rest(from) => {
                let rest = vals.skip(if from < vals.len() { from as int } else { vals.len() as int });
                let arr = next + rest.len();
                (
                    insts + array_insts(rest, next) + seq![
                        InstV::NanboxPointer { dest: (arr + 1) as u64, val: OperandV::Reg(arr as u64) },
                    ],
                    ops.push(OperandV::Reg((arr + 1) as u64)),
                    arr + 2,
                )
            },
            ArgSlot::Arguments => {
                let arr = next + vals.len();
                (
                    insts + array_insts(vals, next) + seq![
                        InstV::NanboxPointer { dest: (arr + 1) as u64, val: OperandV::Reg(arr as u64) },
                    ],
                    ops.push(OperandV::Reg((arr + 1) as u64)),
                    arr + 2,
                )
            },
            ArgSlot::MarkedArguments => {
                let arr = next + vals.len();
                (
                    insts + array_insts(vals, next) + seq![
                        InstV::Call {
                            dest: Some((arr + 1) as u64),
                            ret: Ty::I64,
                            callee: "js_array_mark_arguments_object"@,
                            args: seq![(Ty::I64, OperandV::Reg(arr as u64))],
                        },
                        InstV::NanboxPointer { dest: (arr + 2) as u64, val: OperandV::Reg((arr + 1) as u64) },
                    ],
                    ops.push(OperandV::Reg((arr + 2) as u64)),
                    arr + 3,
                )
            },
        }
    }
}

/// Every argument index a slot names is in range.
pub open spec fn slots_in_range(slots: Seq<ArgSlot>, nargs: nat) -> bool {
    forall|k: int| 0 <= k < slots.len() ==> (#[trigger] slots[k] matches ArgSlot::Arg(i) ==> i < nargs)
}

/// Registers used by the slots are bounded by `(nargs + 3)` per slot.
pub proof fn lemma_slots_regs(slots: Seq<ArgSlot>, vals: Seq<OperandV>, r: int)
    ensures
        r <= slots_result(slots, vals, r).2 <= r + slots.len() * (vals.len() + 3),
        slots_result(slots, vals, r).1.len() == slots.len(),
    decreases slots.len(),
{
    if slots.len() > 0 {
        lemma_slots_regs(slots.drop_last(), vals, r);
        let n = slots.len() - 1;
        assert(n * (vals.len() + 3) + (vals.len() + 3) == slots.len() * (vals.len() + 3)) by (nonlinear_arith)
            requires
                n == slots.len() - 1,
        ;
    }
}

/// Materializes the parameter slots of a direct call from the lowered
/// arguments `vals`: passed arguments as they are, `undefined` for padding,
/// and NaN-boxed JS arrays for rest and `arguments` slots. Returns the
/// operands in slot order.
pub fn emit_slots(b: &mut FnBuilder, slots: &Vec<ArgSlot>, vals: &Vec<Operand>) -> (ops: Vec<Operand>)
    requires
        old(b)@.wf(),
        slots_in_range(slots@, vals@.len()),
        vals@.len() <= u32::MAX,
        old(b)@.next_reg + slots@.len() * (vals@.len() + 3) <= u64::MAX,
    ensures
        ({
            let (insts, opv, next) = slots_result(slots@, operands_view(vals@), old(b)@.next_reg);
            &&& operands_view(ops@) == opv
            &&& final(b)@ == (FnBuilderV { next_reg: next, ..old(b)@ }).append_cur(insts)
        }),
        final(b)@.wf(),
{
    let ghost pre = b@;
    let ghost vv = operands_view(vals@);
    let mut ops: Vec<Operand> = Vec::new();
    proof {
        lemma_append_cur_empty(pre);
        assert(operands_view(ops@) =~= Seq::<OperandV>::empty());
        assert(slots@.take(0) =~= Seq::<ArgSlot>::empty());
    }
    let mut k: usize = 0;
    while k < slots.len()
        invariant
            pre.wf(),
            k <= slots@.len(),
            vv == operands_view(vals@),
            vals@.len() <= u32::MAX,
            slots_in_range(slots@, vals@.len()),
            pre.next_reg + slots@.len() * (vals@.len() + 3) <= u64::MAX,
            ({
                let (insts, opv, next) = slots_result(slots@.take(k as int), vv, pre.next_reg);
                &&& operands_view(ops@) == opv
                &&& b@ == (FnBuilderV { next_reg: next, ..pre }).append_cur(insts)
            }),
        decreases slots@.len() - k,
    {
        let ghost (insts0, opv0, next0) = slots_result(slots@.take(k as int), vv, pre.next_reg);
        proof {
            lemma_slots_regs(slots@.take(k as int), vv, pre.next_reg);
            assert(slots@.take(k + 1).drop_last() =~= slots@.take(k as int));
            assert(slots@.take(k + 1).last() == slots@[k as int]);
            assert((k as int) * (vals@.len() + 3) + (vals@.len() + 3) <= slots@.len() * (vals@.len() + 3)) by (nonlinear_arith)
                requires
                    k < slots@.len(),
            ;
        }
        let ghost st = FnBuilderV { next_reg: next0, ..pre };
        match slots[k] {
            ArgSlot::Arg(i) => {
                ops.push(copy_operand(&vals[i]));
                proof {
                    assert(operands_view(ops@) =~= opv0.push(vv[i as int]));
                }
            },
            ArgSlot::Undefined => {
                ops.push(Operand::Tag(JsTag::Undefined));
                proof {
                    assert(operands_view(ops@) =~= opv0.push(OperandV::Tag(JsTag::Undefined)));
                }
            },
            ArgSlot::Rest(from) => {
                let arr = emit_js_array(b, vals, from);
                let boxed = b.fresh_reg();
                b.push(Inst::NanboxPointer { dest: boxed, val: Operand::Reg(arr) });
                ops.push(Operand::Reg(boxed));
                proof {
                    let rest = vv.skip(if from < vv.len() { from as int } else { vv.len() as int });
                    let ai = array_insts(rest, next0);
                    let nb = InstV::NanboxPointer { dest: boxed, val: OperandV::Reg(arr) };
                    lemma_append_cur_twice(st, insts0, ai);
                    lemma_append_cur_twice(FnBuilderV { next_reg: next0 + rest.len() + 2, ..pre }, insts0 + ai, seq![nb]);
                    assert(operands_view(ops@) =~= opv0.push(OperandV::Reg(boxed)));
                }
            },
            ArgSlot::Arguments => {
                let arr = emit_js_array(b, vals, 0);
                let boxed = b.fresh_reg();
                b.push(Inst::NanboxPointer { dest: boxed, val: Operand::Reg(arr) });
                ops.push(Operand::Reg(boxed));
                proof {
                    assert(vv.skip(0) =~= vv);
                    let ai = array_insts(vv, next0);
                    let nb = InstV::NanboxPointer { dest: boxed, val: OperandV::Reg(arr) };
                    lemma_append_cur_twice(st, insts0, ai);
                    lemma_append_cur_twice(FnBuilderV { next_reg: next0 + vv.len() + 2, ..pre }, insts0 + ai, seq![nb]);
                    assert(operands_view(ops@) =~= opv0.push(OperandV::Reg(boxed)));
                }
            },
            ArgSlot::MarkedArguments => {
                let arr = emit_js_array(b, vals, 0);
                let a = vec![(Ty::I64, Operand::Reg(arr))];
                assert(args_view(a@) =~= seq![(Ty::I64, OperandV::Reg(arr))]);
                let marked = b.call(Ty::I64, "js_array_mark_arguments_object", a);
                let boxed = b.fresh_reg();
                b.push(Inst::NanboxPointer { dest: boxed, val: Operand::Reg(marked) });
                ops.push(Operand::Reg(boxed));
                proof {
                    assert(vv.skip(0) =~= vv);
                    let ai = array_insts(vv, next0);
                    let mk = InstV::Call {
                        dest: Some(marked),
                        ret: Ty::I64,
                        callee: "js_array_mark_arguments_object"@,
                        args: seq![(Ty::I64, OperandV::Reg(arr))],
                    };
                    let nb = InstV::NanboxPointer { dest: boxed, val: OperandV::Reg(marked) };
                    lemma_append_cur_twice(st, insts0, ai);
                    lemma_append_cur_twice(FnBuilderV { next_reg: next0 + vv.len() + 2, ..pre }, insts0 + ai, seq![mk]);
                    lemma_append_cur_twice(FnBuilderV { next_reg: next0 + vv.len() + 3, ..pre }, insts0 + ai + seq![mk], seq![nb]);
                    assert(insts0 + ai + seq![mk] + seq![nb] =~= insts0 + ai + seq![mk, nb]);
                    assert(operands_view(ops@) =~= opv0.push(OperandV::Reg(boxed)));
                }
            },
        }
        k = k + 1;
    }
    proof {
        assert(slots@.take(slots@.len() as int) =~= slots@);
    }
    ops
}

/// The slot operands as `double` arguments.
pub fn as_double_args(ops: Vec<Operand>) -> (args: Vec<Arg>)
    ensures
        args_view(args@) == operands_view(ops@).map_values(|o: OperandV| (Ty::Double, o)),
{
    let mut args: Vec<Arg> = Vec::new();
    let ghost all = operands_view(ops@);
    let n = ops.len();
    let mut i: usize = 0;
    while i < n
        invariant
            n == all.len(),
            i <= n,
            all == operands_view(ops@),
            args_view(args@) =~= all.take(i as int).map_values(|o: OperandV| (Ty::Double, o)),
        decreases n - i,
    {
        let o = copy_operand(&ops[i]);
        let ghost prev = args@;
        args.push((Ty::Double, o));
        proof {
            assert(args@ == prev.push((Ty::Double, o)));
            assert(args_view(args@) =~= args_view(prev).push((Ty::Double, all[i as int])));
            assert(all.take(i + 1) =~= all.take(i as int).push(all[i as int]));
            assert(args_view(args@) =~= all.take(i + 1).map_values(|o: OperandV| (Ty::Double, o)));
        }
        i = i + 1;
    }
    proof {
        assert(all.take(n as int) =~= all);
    }
    args
}

/// The `gep`/`store` pairs that spill `vals[0..count]` into the stack
/// buffer held in register `buf`; slot `i` gets register `buf + 1 + i`.
pub open spec fn spill_values(vals: Seq<OperandV>, buf: int, count: nat) -> Seq<InstV>
    decreases count,
{
    if count == 0 {
        Seq::empty()
    } else {
        let i = (count - 1) as nat;
        spill_values(vals, buf, i) + seq![
            InstV::Gep { dest: (buf + 1 + i) as u64, elem: Ty::Double, base: OperandV::Reg(buf as u64), index: i as u64 },
            InstV::Store { ty: Ty::Double, val: vals[i as int], ptr: OperandV::Reg((buf + 1 + i) as u64) },
        ]
    }
}

/// The function state and the `(pointer, length)` pair of an argument
/// buffer holding `vals`, from `pre`: the null pointer and nothing emitted
/// for no values; else a `[n x double]` entry-block alloca in register `r`,
/// the values spilled into it, and a pointer to its first element.
pub open spec fn args_buffer_result(pre: FnBuilderV, vals: Seq<OperandV>) -> (FnBuilderV, OperandV) {
    let n = vals.len();
    let r = pre.next_reg;
    if n == 0 {
        (pre, OperandV::Null)
    } else {
        (
            (FnBuilderV {
                next_reg: r + 2 + n,
                allocas: pre.allocas.push(InstV::Alloca { dest: r as u64, elem: Ty::Double, count: n as u64 }),
                ..pre
            }).append_cur(
                spill_values(vals, r, n) + seq![
                    InstV::ArrayBase { dest: (r + 1 + n) as u64, len: n as u64, base: OperandV::Reg(r as u64) },
                ],
            ),
            OperandV::Reg((r + 1 + n) as u64),
        )
    }
}

/// Spills `vals` into a fresh entry-block `double` buffer and returns the
/// pointer to pass with `vals.len()` (the null pointer when empty).
pub fn emit_args_buffer(b: &mut FnBuilder, vals: &Vec<Operand>) -> (ptr: Operand)
    requires
        old(b)@.wf(),
        old(b)@.next_reg + vals@.len() + 2 <= u64::MAX,
    ensures
        ({
            let (post, p) = args_buffer_result(old(b)@, operands_view(vals@));
            &&& final(b)@ == post
            &&& ptr@ == p
        }),
        final(b)@.wf(),
{
    let ghost pre = b@;
    let ghost vv = operands_view(vals@);
    let n = vals.len();
    if n == 0 {
        return Operand::Null;
    }
    let buf = b.alloca_entry_array(Ty::Double, n as u64);
    let ghost st = FnBuilderV {
        next_reg: pre.next_reg + 2 + n,
        allocas: pre.allocas.push(InstV::Alloca { dest: buf, elem: Ty::Double, count: n as u64 }),
        ..pre
    };
    proof {
        lemma_append_cur_empty(FnBuilderV { next_reg: pre.next_reg + 1, ..st });
    }
    let mut i: usize = 0;
    while i < n
        invariant
            pre.wf(),
            i <= n,
            n == vals@.len(),
            n > 0,
            buf == pre.next_reg,
            pre.next_reg + n + 2 <= u64::MAX,
            vv == operands_view(vals@),
            st == (FnBuilderV {
                next_reg: pre.next_reg + 2 + n,
                allocas: pre.allocas.push(InstV::Alloca { dest: buf, elem: Ty::Double, count: n as u64 }),
                ..pre
            }),
            b@ == (FnBuilderV { next_reg: pre.next_reg + 1 + i, ..st }).append_cur(spill_values(vv, buf as int, i as nat)),
            b@.wf(),
        decreases n - i,
    {
        let ghost s2 = FnBuilderV { next_reg: pre.next_reg + 2 + i, ..st };
        let slot = b.fresh_reg();
        b.push(Inst::Gep { dest: slot, elem: Ty::Double, base: Operand::Reg(buf), index: i as u64 });
        b.push(Inst::Store { ty: Ty::Double, val: copy_operand(&vals[i]), ptr: Operand::Reg(slot) });
        proof {
            let a = spill_values(vv, buf as int, i as nat);
            let g = InstV::Gep { dest: slot, elem: Ty::Double, base: OperandV::Reg(buf), index: i as u64 };
            let t = InstV::Store { ty: Ty::Double, val: vv[i as int], ptr: OperandV::Reg(slot) };
            lemma_append_cur_twice(s2, a, seq![g]);
            lemma_append_cur_twice(s2, a + seq![g], seq![t]);
            assert(a + seq![g] + seq![t] =~= spill_values(vv, buf as int, (i + 1) as nat));
        }
        i = i + 1;
    }
    let p = b.fresh_reg();
    b.push(Inst::ArrayBase { dest: p, len: n as u64, base: Operand::Reg(buf) });
    proof {
        let sp = spill_values(vv, buf as int, n as nat);
        lemma_append_cur_twice(st, sp, seq![InstV::ArrayBase { dest: p, len: n as u64, base: OperandV::Reg(buf) }]);
    }
    Operand::Reg(p)
}

/// The function state and pointer of an argument buffer of `size`
/// `double`s whose first `vals.len()` slots hold `vals`, from `pre`: the
/// null pointer and nothing emitted for size 0; else a `[size x double]`
/// entry-block alloca in register `r`, `vals` spilled into it, and a
/// pointer to its first element.
pub open spec fn sized_buffer_result(pre: FnBuilderV, vals: Seq<OperandV>, size: nat) -> (FnBuilderV, OperandV) {
    let m = vals.len();
    let r = pre.next_reg;
    if size == 0 {
        (pre, OperandV::Null)
    } else {
        (
            (FnBuilderV {
                next_reg: r + 2 + m,
                allocas: pre.allocas.push(InstV::Alloca { dest: r as u64, elem: Ty::Double, count: size as u64 }),
                ..pre
            }).append_cur(
                spill_values(vals, r, m) + seq![
                    InstV::ArrayBase { dest: (r + 1 + m) as u64, len: size as u64, base: OperandV::Reg(r as u64) },
                ],
            ),
            OperandV::Reg((r + 1 + m) as u64),
        )
    }
}

/// Spills `vals` into the first slots of a fresh entry-block buffer of
/// `size` `double`s and returns the pointer to pass with `size` (the null
/// pointer when `size` is 0).
pub fn emit_sized_args_buffer(b: &mut FnBuilder, vals: &Vec<Operand>, size: u64) -> (ptr: Operand)
    requires
        old(b)@.wf(),
        vals@.len() <= size,
        old(b)@.next_reg + vals@.len() + 2 <= u64::MAX,
    ensures
        ({
            let (post, p) = sized_buffer_result(old(b)@, operands_view(vals@), size as nat);
            &&& final(b)@ == post
            &&& ptr@ == p
        }),
        final(b)@.wf(),
{
    let ghost pre = b@;
    let ghost vv = operands_view(vals@);
    let n = vals.len();
    if size == 0 {
        return Operand::Null;
    }
    let buf = b.alloca_entry_array(Ty::Double, size);
    let ghost st = FnBuilderV {
        next_reg: pre.next_reg + 2 + n,
        allocas: pre.allocas.push(InstV::Alloca { dest: buf, elem: Ty::Double, count: size }),
        ..pre
    };
    proof {
        lemma_append_cur_empty(FnBuilderV { next_reg: pre.next_reg + 1, ..st });
    }
    let mut i: usize = 0;
    while i < n
        invariant
            pre.wf(),
            i <= n,
            n == vals@.len(),
            buf == pre.next_reg,
            pre.next_reg + n + 2 <= u64::MAX,
            vv == operands_view(vals@),
            st == (FnBuilderV {
                next_reg: pre.next_reg + 2 + n,
                allocas: pre.allocas.push(InstV::Alloca { dest: buf, elem: Ty::Double, count: size }),
                ..pre
            }),
            b@ == (FnBuilderV { next_reg: pre.next_reg + 1 + i, ..st }).append_cur(spill_values(vv, buf as int, i as nat)),
            b@.wf(),
        decreases n - i,
    {
        let ghost s2 = FnBuilderV { next_reg: pre.next_reg + 2 + i, ..st };
        let slot = b.fresh_reg();
        b.push(Inst::Gep { dest: slot, elem: Ty::Double, base: Operand::Reg(buf), index: i as u64 });
        b.push(Inst::Store { ty: Ty::Double, val: copy_operand(&vals[i]), ptr: Operand::Reg(slot) });
        proof {
            let a = spill_values(vv, buf as int, i as nat);
            let g = InstV::Gep { dest: slot, elem: Ty::Double, base: OperandV::Reg(buf), index: i as u64 };
            let t = InstV::Store { ty: Ty::Double, val: vv[i as int], ptr: OperandV::Reg(slot) };
            lemma_append_cur_twice(s2, a, seq![g]);
            lemma_append_cur_twice(s2, a + seq![g], seq![t]);
            assert(a + seq![g] + seq![t] =~= spill_values(vv, buf as int, (i + 1) as nat));
        }
        i = i + 1;
    }
    let p = b.fresh_reg();
    b.push(Inst::ArrayBase { dest: p, len: size, base: Operand::Reg(buf) });
    proof {
        let sp = spill_values(vv, buf as int, n as nat);
        lemma_append_cur_twice(st, sp, seq![InstV::ArrayBase { dest: p, len: size, base: OperandV::Reg(buf) }]);
    }
    Operand::Reg(p)
}

/// The function state after spilling `vals` into a fresh `[n x double]`
/// entry-block buffer held in register `pre.next_reg` (nothing emitted for
/// no values); the buffer register itself is what is passed.
pub open spec fn stack_args_result(pre: FnBuilderV, vals: Seq<OperandV>) -> FnBuilderV {
    let n = vals.len();
    let r = pre.next_reg;
    if n == 0 {
        pre
    } else {
        (FnBuilderV {
            next_reg: r + 1 + n,
            allocas: pre.allocas.push(InstV::Alloca { dest: r as u64, elem: Ty::Double, count: n as u64 }),
            ..pre
        }).append_cur(spill_values(vals, r, n))
    }
}

/// The pointer passed for a stack argument buffer: the null pointer for no
/// values, else the buffer register.
pub open spec fn stack_args_ptr(pre: FnBuilderV, vals: Seq<OperandV>) -> OperandV {
    if vals.len() == 0 {
        OperandV::Null
    } else {
        OperandV::Reg(pre.next_reg as u64)
    }
}

/// Spills `vals` into a fresh entry-block `double` buffer and returns the
/// buffer (the null pointer when there are no values).
pub fn emit_stack_args(b: &mut FnBuilder, vals: &Vec<Operand>) -> (ptr: Operand)
    requires
        old(b)@.wf(),
        old(b)@.next_reg + vals@.len() + 1 <= u64::MAX,
    ensures
        final(b)@ == stack_args_result(old(b)@, operands_view(vals@)),
        ptr@ == stack_args_ptr(old(b)@, operands_view(vals@)),
        final(b)@.wf(),
{
    let ghost pre = b@;
    let ghost vv = operands_view(vals@);
    let n = vals.len();
    if n == 0 {
        return Operand::Null;
    }
    let buf = b.alloca_entry_array(Ty::Double, n as u64);
    let ghost st = FnBuilderV {
        next_reg: pre.next_reg + 1 + n,
        allocas: pre.allocas.push(InstV::Alloca { dest: buf, elem: Ty::Double, count: n as u64 }),
        ..pre
    };
    proof {
        lemma_append_cur_empty(FnBuilderV { next_reg: pre.next_reg + 1, ..st });
    }
    let mut i: usize = 0;
    while i < n
        invariant
            pre.wf(),
            i <= n,
            n == vals@.len(),
            buf == pre.next_reg,
            pre.next_reg + n + 1 <= u64::MAX,
            vv == operands_view(vals@),
            st == (FnBuilderV {
                next_reg: pre.next_reg + 1 + n,
                allocas: pre.allocas.push(InstV::Alloca { dest: buf, elem: Ty::Double, count: n as u64 }),
                ..pre
            }),
            b@ == (FnBuilderV { next_reg: pre.next_reg + 1 + i, ..st }).append_cur(spill_values(vv, buf as int, i as nat)),
            b@.wf(),
        decreases n - i,
    {
        let ghost s2 = FnBuilderV { next_reg: pre.next_reg + 2 + i, ..st };
        let slot = b.fresh_reg();
        b.push(Inst::Gep { dest: slot, elem: Ty::Double, base: Operand::Reg(buf), index: i as u64 });
        b.push(Inst::Store { ty: Ty::Double, val: copy_operand(&vals[i]), ptr: Operand::Reg(slot) });
        proof {
            let a = spill_values(vv, buf as int, i as nat);
            let g = InstV::Gep { dest: slot, elem: Ty::Double, base: OperandV::Reg(buf), index: i as u64 };
            let t = InstV::Store { ty: Ty::Double, val: vv[i as int], ptr: OperandV::Reg(slot) };
            lemma_append_cur_twice(s2, a, seq![g]);
            lemma_append_cur_twice(s2, a + seq![g], seq![t]);
            assert(a + seq![g] + seq![t] =~= spill_values(vv, buf as int, (i + 1) as nat));
        }
        i = i + 1;
    }
    Operand::Reg(buf)
}

} // verus!
