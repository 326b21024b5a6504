//! The runtime own-property override check emitted before a static class
//! method dispatch: when the receiver carries an own property under the
//! method's name (set via `this.method = X`), the stored closure is invoked
//! through `js_native_call_value`; otherwise the static method body is called
//! directly. The two paths join in a phi.

use vstd::prelude::*;
use vstd::string::StringSliceAdditionalSpecFns;

use crate::ir::{
    lemma_append_cur_empty, lemma_append_cur_twice, args_view, first_index_of, operands_view, Arg, FnBuilder, FnBuilderV, Inst, InstV, JsTag, Operand,
    OperandV, Ty, BlockV, copy_operand,
};

verus! {

/// Where `intern` puts `s`: the first equal entry, else a new last entry.
pub open spec fn intern_index(strings: Seq<Seq<char>>, s: Seq<char>) -> int {
    if strings.contains(s) {
        first_index_of(strings, s)
    } else {
        strings.len() as int
    }
}

/// The string pool after interning `s`.
pub open spec fn intern_strings(strings: Seq<Seq<char>>, s: Seq<char>) -> Seq<Seq<char>> {
    if strings.contains(s) {
        strings
    } else {
        strings.push(s)
    }
}

/// The `gep`/`store` pairs that spill `lowered[1..=count]` into the stack
/// buffer held in register `buf`; slot `i` gets register `buf + 1 + i`.
pub open spec fn spill_user_args(lowered: Seq<OperandV>, buf: u64, count: nat) -> Seq<InstV>
    decreases count,
{
    if count == 0 {
        Seq::empty()
    } else {
        let i = (count - 1) as nat;
        spill_user_args(lowered, buf, i) + seq![
            InstV::Gep { dest: (buf + 1 + i) as u64, elem: Ty::Double, base: OperandV::Reg(buf), index: i as u64 },
            InstV::Store { ty: Ty::Double, val: lowered[i + 1 as int], ptr: OperandV::Reg((buf + 1 + i) as u64) },
        ]
    }
}

/// The number of user arguments (all but the receiver in `lowered[0]`).
pub open spec fn user_arg_count(lowered: Seq<OperandV>) -> nat {
    if lowered.len() == 0 {
        0
    } else {
        (lowered.len() - 1) as nat
    }
}

/// The first register after the argument spill of the override path, when
/// the first register of the whole check is `r`.
pub open spec fn after_spill_reg(r: int, m: nat) -> int {
    if m == 0 {
        r + 3
    } else {
        r + 5 + m
    }
}

/// The receiver bound as the implicit `this` on the override path.
pub open spec fn recv_for_this(lowered: Seq<OperandV>) -> OperandV {
    if lowered.len() == 0 {
        OperandV::Tag(JsTag::Undefined)
    } else {
        lowered[0]
    }
}

/// The instructions of the override block: register `r` holds the probed
/// property, the block's own registers start at `r + 3`, and `merge` is the
/// merge block.
pub open spec fn override_block_insts(lowered: Seq<OperandV>, r: int, merge: usize) -> Seq<InstV> {
    let m = user_arg_count(lowered);
    let base = after_spill_reg(r, m);
    let spill = if m == 0 {
        Seq::empty()
    } else {
        spill_user_args(lowered, (r + 3) as u64, m) + seq![
            InstV::ArrayBase { dest: (r + 4 + m) as u64, len: m as u64, base: OperandV::Reg((r + 3) as u64) },
        ]
    };
    let args_ptr = if m == 0 {
        OperandV::Null
    } else {
        OperandV::Reg((r + 4 + m) as u64)
    };
    spill + seq![
        InstV::Call {
            dest: Some(base as u64),
            ret: Ty::Double,
            callee: "js_implicit_this_set"@,
            args: seq![(Ty::Double, recv_for_this(lowered))],
        },
        InstV::Call {
            dest: Some((base + 1) as u64),
            ret: Ty::Double,
            callee: "js_native_call_value"@,
            args: seq![(Ty::Double, OperandV::Reg(r as u64)), (Ty::Ptr, args_ptr), (Ty::I64, OperandV::Int(m as u64))],
        },
        InstV::Call {
            dest: Some((base + 2) as u64),
            ret: Ty::Double,
            callee: "js_implicit_this_set"@,
            args: seq![(Ty::Double, OperandV::Reg(base as u64))],
        },
        InstV::Br { target: merge },
    ]
}

/// The instructions appended to the block that was current: the own-field
/// probe, its bits, the comparison against `undefined`, and the branch.
pub open spec fn probe_insts(
    recv_box: OperandV,
    key: int,
    name_len: u64,
    r: int,
    override_blk: usize,
    static_blk: usize,
) -> Seq<InstV> {
    seq![
        InstV::Call {
            dest: Some(r as u64),
            ret: Ty::Double,
            callee: "js_object_get_own_field_or_undef"@,
            args: seq![
                (Ty::Double, recv_box),
                (Ty::Ptr, OperandV::StrBytes(key as usize)),
                (Ty::I64, OperandV::Int(name_len)),
            ],
        },
        InstV::BitcastDoubleToI64 { dest: (r + 1) as u64, val: OperandV::Reg(r as u64) },
        InstV::IntEq {
            dest: (r + 2) as u64,
            ty: Ty::I64,
            lhs: OperandV::Reg((r + 1) as u64),
            rhs: OperandV::Tag(JsTag::Undefined),
        },
        InstV::CondBr { cond: OperandV::Reg((r + 2) as u64), if_true: static_blk, if_false: override_blk },
    ]
}

/// The entry-block allocas after the check: one `[m x double]` buffer when
/// there are user arguments to spill.
pub open spec fn override_allocas(old_allocas: Seq<InstV>, lowered: Seq<OperandV>, r: int) -> Seq<InstV> {
    let m = user_arg_count(lowered);
    if m == 0 {
        old_allocas
    } else {
        old_allocas.push(InstV::Alloca { dest: (r + 3) as u64, elem: Ty::Double, count: m as u64 })
    }
}

/// The function state after the probe: the probe instructions appended to
/// the current block, and the override, static and merge blocks opened
/// (empty) at the end.
pub open spec fn probe_result(pre: FnBuilderV, recv_box: OperandV, key: int, name_len: u64) -> FnBuilderV {
    probe_result_named(pre, recv_box, key, name_len, "ovrcheck.override"@, "ovrcheck.static"@, "ovrcheck.merge"@)
}

/// `probe_result`, the three blocks named `n_override`, `n_static` and
/// `n_merge`.
pub open spec fn probe_result_named(
    pre: FnBuilderV,
    recv_box: OperandV,
    key: int,
    name_len: u64,
    n_override: Seq<char>,
    n_static: Seq<char>,
    n_merge: Seq<char>,
) -> FnBuilderV {
    let r = pre.next_reg;
    let n = pre.blocks.len();
    let with = (FnBuilderV { next_reg: r + 3, ..pre }).append_cur(
        probe_insts(recv_box, key, name_len, r, n as usize, (n + 1) as usize),
    );
    FnBuilderV {
        blocks: with.blocks.push(BlockV { name: n_override, insts: Seq::empty() }).push(
            BlockV { name: n_static, insts: Seq::empty() },
        ).push(BlockV { name: n_merge, insts: Seq::empty() }),
        ..with
    }
}

/// Emits the own-field probe for the pool entry `key_idx` into the current
/// block, opens the three blocks of the check and branches to them. Returns
/// the probe's register and the indices of the override, static and merge
/// blocks.
pub(crate) fn emit_probe(
    b: &mut FnBuilder,
    recv_box: &Operand,
    key_idx: usize,
    name_len: u64,
    names: (&str, &str, &str),
) -> (res: (u64, usize, usize, usize))
    requires
        old(b)@.wf(),
        old(b)@.blocks.len() + 3 <= usize::MAX,
        old(b)@.next_reg + 3 <= u64::MAX,
    ensures
        res.0 == old(b)@.next_reg,
        res.1 == old(b)@.blocks.len(),
        res.2 == old(b)@.blocks.len() + 1,
        res.3 == old(b)@.blocks.len() + 2,
        final(b)@ == probe_result_named(
            old(b)@,
            recv_box@,
            key_idx as int,
            name_len,
            names.0@,
            names.1@,
            names.2@,
        ),
        final(b)@.wf(),
{
    let ghost s1 = b@;
    let r = b.peek_reg();
    let ro = copy_operand(recv_box);
    let args = vec![(Ty::Double, ro), (Ty::Ptr, Operand::StrBytes(key_idx)), (Ty::I64, Operand::Int(name_len))];
    assert(args@.len() == 3);
    assert(args@[0].1@ == recv_box@);
    let ghost n = s1.blocks.len();
    let ghost want = probe_insts(recv_box@, key_idx as int, name_len, r as int, n as usize, (n + 1) as usize);
    assert(args_view(args@) =~= want[0]->Call_args);
    let own_method = b.call(Ty::Double, "js_object_get_own_field_or_undef", args);
    proof {
        assert(want.take(1) =~= seq![want[0]]);
        assert(b@ == (FnBuilderV { next_reg: r + 1, ..s1 }).append_cur(want.take(1)));
    }
    let own_bits = b.fresh_reg();
    proof {
        assert(b@ == (FnBuilderV { next_reg: r + 2, ..s1 }).append_cur(want.take(1)));
    }
    b.push(Inst::BitcastDoubleToI64 { dest: own_bits, val: Operand::Reg(own_method) });
    proof {
        lemma_append_cur_twice(FnBuilderV { next_reg: r + 2, ..s1 }, want.take(1), seq![want[1]]);
        assert(want.take(1) + seq![want[1]] =~= want.take(2));
        assert(b@ == (FnBuilderV { next_reg: r + 2, ..s1 }).append_cur(want.take(2)));
    }
    let is_undef = b.fresh_reg();
    proof {
        assert(b@ == (FnBuilderV { next_reg: r + 3, ..s1 }).append_cur(want.take(2)));
    }
    b.push(Inst::IntEq { dest: is_undef, ty: Ty::I64, lhs: Operand::Reg(own_bits), rhs: Operand::Tag(JsTag::Undefined) });
    proof {
        lemma_append_cur_twice(FnBuilderV { next_reg: r + 3, ..s1 }, want.take(2), seq![want[2]]);
        assert(want.take(2) + seq![want[2]] =~= want.take(3));
    }
    let nb = b.num_blocks();
    b.push(Inst::CondBr { cond: Operand::Reg(is_undef), if_true: nb + 1, if_false: nb });
    proof {
        lemma_append_cur_twice(FnBuilderV { next_reg: r + 3, ..s1 }, want.take(3), seq![want[3]]);
        assert(want.take(3) + seq![want[3]] =~= want);
        assert(b@ == (FnBuilderV { next_reg: r + 3, ..s1 }).append_cur(want));
    }
    let override_idx = b.new_block(names.0);
    let static_idx = b.new_block(names.1);
    let merge_idx = b.new_block(names.2);
    (own_method, override_idx, static_idx, merge_idx)
}

/// The function state after the override path has been emitted into the
/// current block; `r` is the probe's register.
pub open spec fn override_path_result(pre: FnBuilderV, lowered: Seq<OperandV>, r: int, merge: usize) -> FnBuilderV {
    (FnBuilderV {
        next_reg: after_spill_reg(r, user_arg_count(lowered)) + 3,
        allocas: override_allocas(pre.allocas, lowered, r),
        ..pre
    }).append_cur(override_block_insts(lowered, r, merge))
}

/// The whole function state after the check, from the state `pre` before it.
pub open spec fn override_check_result(
    pre: FnBuilderV,
    recv_box: OperandV,
    property: Seq<char>,
    name_len: u64,
    fallback_fn: Seq<char>,
    fallback_args: Seq<(Ty, OperandV)>,
    lowered: Seq<OperandV>,
) -> FnBuilderV {
    let r = pre.next_reg;
    let n = pre.blocks.len() as int;
    let merge = (n + 2) as usize;
    let probed = probe_result(
        FnBuilderV { strings: intern_strings(pre.strings, property), ..pre },
        recv_box,
        intern_index(pre.strings, property),
        name_len,
    );
    let ovr = override_path_result(FnBuilderV { current: n, ..probed }, lowered, r, merge);
    let base = after_spill_reg(r, user_arg_count(lowered));
    let stat = (FnBuilderV { current: n + 1, next_reg: base + 4, ..ovr }).append_cur(
        seq![
            InstV::Call { dest: Some((base + 3) as u64), ret: Ty::Double, callee: fallback_fn, args: fallback_args },
            InstV::Br { target: merge },
        ],
    );
    (FnBuilderV { current: n + 2, next_reg: base + 5, ..stat }).append_cur(
        seq![
            InstV::Phi {
                dest: (base + 4) as u64,
                ty: Ty::Double,
                incoming: seq![
                    (OperandV::Reg((base + 1) as u64), n as usize),
                    (OperandV::Reg((base + 3) as u64), (n + 1) as usize),
                ],
            },
        ],
    )
}

/// Spills `lowered_args[1..]` into the buffer held in `buf_reg`.
fn emit_spill(b: &mut FnBuilder, lowered_args: &Vec<Operand>, buf_reg: u64)
    requires
        old(b)@.wf(),
        lowered_args@.len() >= 1,
        old(b)@.next_reg == buf_reg + 1,
        old(b)@.next_reg + lowered_args@.len() <= u64::MAX,
    ensures
        final(b)@ == (FnBuilderV { next_reg: old(b)@.next_reg + lowered_args@.len() - 1, ..old(b)@ }).append_cur(
            spill_user_args(operands_view(lowered_args@), buf_reg, (lowered_args@.len() - 1) as nat),
        ),
        final(b)@.wf(),
{
    let ghost pre = b@;
    let ghost lowered = operands_view(lowered_args@);
    let count = lowered_args.len() - 1;
    proof {
        lemma_append_cur_empty(pre);
    }
    let mut i: usize = 0;
    while i < count
        invariant
            pre.wf(),
            i <= count,
            count + 1 == lowered_args@.len(),
            pre.next_reg == buf_reg + 1,
            pre.next_reg + count < u64::MAX,
            lowered == operands_view(lowered_args@),
            b@ == (FnBuilderV { next_reg: pre.next_reg + i, ..pre }).append_cur(
                spill_user_args(lowered, buf_reg, i as nat),
            ),
            b@.wf(),
        decreases count - i,
    {
        let ghost st = FnBuilderV { next_reg: pre.next_reg + i + 1, ..pre };
        let slot = b.fresh_reg();
        assert(b@ == st.append_cur(spill_user_args(lowered, buf_reg, i as nat)));
        b.push(Inst::Gep { dest: slot, elem: Ty::Double, base: Operand::Reg(buf_reg), index: i as u64 });
        let v = copy_operand(&lowered_args[i + 1]);
        b.push(Inst::Store { ty: Ty::Double, val: v, ptr: Operand::Reg(slot) });
        proof {
            let a = spill_user_args(lowered, buf_reg, i as nat);
            let g = InstV::Gep { dest: slot, elem: Ty::Double, base: OperandV::Reg(buf_reg), index: i as u64 };
            let t = InstV::Store { ty: Ty::Double, val: lowered[i + 1], ptr: OperandV::Reg(slot) };
            lemma_append_cur_twice(st, a, seq![g]);
            lemma_append_cur_twice(st, a + seq![g], seq![t]);
            assert(a + seq![g] + seq![t] =~= spill_user_args(lowered, buf_reg, (i + 1) as nat));
        }
        i = i + 1;
    }
}

/// Emits the override path into the current (empty) block: spill, bind
/// `this`, call the stored closure held in register `r`, restore `this`,
/// branch to `merge_idx`. Returns the register holding the closure's result.
pub(crate) fn emit_override_path(b: &mut FnBuilder, r: u64, lowered_args: &Vec<Operand>, merge_idx: usize) -> (v: u64)
    requires
        old(b)@.wf(),
        old(b)@.cur_insts().len() == 0,
        old(b)@.next_reg == r + 3,
        r + lowered_args@.len() + 16 <= u64::MAX,
    ensures
        final(b)@ == override_path_result(old(b)@, operands_view(lowered_args@), r as int, merge_idx),
        v == after_spill_reg(r as int, user_arg_count(operands_view(lowered_args@))) + 1,
        final(b)@.wf(),
{
    let ghost pre = b@;
    let ghost lowered = operands_view(lowered_args@);
    let ghost m = user_arg_count(lowered);
    let ghost full = override_block_insts(lowered, r as int, merge_idx);
    let ghost spill = full.take(full.len() - 4);
    let user_count: usize = if lowered_args.len() == 0 { 0 } else { lowered_args.len() - 1 };
    let args_ptr: Operand;
    if user_count == 0 {
        args_ptr = Operand::Null;
        proof {
            lemma_append_cur_empty(pre);
            assert(spill =~= Seq::<InstV>::empty());
        }
    } else {
        let buf_reg = b.alloca_entry_array(Ty::Double, user_count as u64);
        emit_spill(b, lowered_args, buf_reg);
        let ptr_reg = b.fresh_reg();
        b.push(Inst::ArrayBase { dest: ptr_reg, len: user_count as u64, base: Operand::Reg(buf_reg) });
        args_ptr = Operand::Reg(ptr_reg);
        proof {
            let st = FnBuilderV { next_reg: r + 5 + m, allocas: override_allocas(pre.allocas, lowered, r as int), ..pre };
            let sp = spill_user_args(lowered, (r + 3) as u64, m);
            lemma_append_cur_twice(st, sp, seq![InstV::ArrayBase { dest: ptr_reg, len: m as u64, base: OperandV::Reg(buf_reg) }]);
            assert(spill =~= sp + seq![InstV::ArrayBase { dest: ptr_reg, len: m as u64, base: OperandV::Reg(buf_reg) }]);
        }
    }
    let ghost base = after_spill_reg(r as int, m);
    let ghost st = FnBuilderV { next_reg: base + 3, allocas: override_allocas(pre.allocas, lowered, r as int), ..pre };
    assert(b@ == (FnBuilderV { next_reg: base, ..st }).append_cur(spill));
    let recv_this = if lowered_args.len() > 0 {
        copy_operand(&lowered_args[0])
    } else {
        Operand::Tag(JsTag::Undefined)
    };
    let a1 = vec![(Ty::Double, recv_this)];
    assert(args_view(a1@) =~= full[full.len() - 4]->Call_args);
    let prev_this = b.call(Ty::Double, "js_implicit_this_set", a1);
    let a2 = vec![(Ty::Double, Operand::Reg(r)), (Ty::Ptr, args_ptr), (Ty::I64, Operand::Int(user_count as u64))];
    assert(args_view(a2@) =~= full[full.len() - 3]->Call_args);
    let v_override = b.call(Ty::Double, "js_native_call_value", a2);
    let a3 = vec![(Ty::Double, Operand::Reg(prev_this))];
    assert(args_view(a3@) =~= full[full.len() - 2]->Call_args);
    b.call(Ty::Double, "js_implicit_this_set", a3);
    b.push(Inst::Br { target: merge_idx });
    proof {
        let x0 = FnBuilderV { next_reg: base, ..st };
        let x1 = FnBuilderV { next_reg: base + 1, ..st };
        let x2 = FnBuilderV { next_reg: base + 2, ..st };
        let k = full.len();
        lemma_append_cur_twice(x1, spill, seq![full[k - 4]]);
        assert(spill + seq![full[k - 4]] =~= full.take(k - 3));
        lemma_append_cur_twice(x2, full.take(k - 3), seq![full[k - 3]]);
        assert(full.take(k - 3) + seq![full[k - 3]] =~= full.take(k - 2));
        lemma_append_cur_twice(st, full.take(k - 2), seq![full[k - 2]]);
        assert(full.take(k - 2) + seq![full[k - 2]] =~= full.take(k - 1));
        lemma_append_cur_twice(st, full.take(k - 1), seq![full[k - 1]]);
        assert(full.take(k - 1) + seq![full[k - 1]] =~= full);
    }
    v_override
}

/// Emits the static path (the direct call to `fallback_fn`) into block
/// `static_idx`, then the phi joining `v_override` (from `override_blk`)
/// and the static result into block `merge_idx`, which becomes current.
/// Returns the phi's register.
fn emit_static_and_merge(
    b: &mut FnBuilder,
    static_idx: usize,
    merge_idx: usize,
    fallback_fn: &str,
    fallback_arg_slices: Vec<Arg>,
    v_override: u64,
    override_blk: usize,
) -> (phi: u64)
    requires
        old(b)@.wf(),
        static_idx < old(b)@.blocks.len(),
        merge_idx < old(b)@.blocks.len(),
        old(b)@.blocks[static_idx as int].insts.len() == 0,
        old(b)@.next_reg + 2 <= u64::MAX,
    ensures
        phi == old(b)@.next_reg + 1,
        final(b)@ == ({
            let s0 = old(b)@;
            let r = s0.next_reg;
            let stat = (FnBuilderV { current: static_idx as int, next_reg: r + 1, ..s0 }).append_cur(
                seq![
                    InstV::Call {
                        dest: Some(r as u64),
                        ret: Ty::Double,
                        callee: fallback_fn@,
                        args: args_view(fallback_arg_slices@),
                    },
                    InstV::Br { target: merge_idx },
                ],
            );
            (FnBuilderV { current: merge_idx as int, next_reg: r + 2, ..stat }).append_cur(
                seq![
                    InstV::Phi {
                        dest: (r + 1) as u64,
                        ty: Ty::Double,
                        incoming: seq![(OperandV::Reg(v_override), override_blk), (OperandV::Reg(r as u64), static_idx)],
                    },
                ],
            )
        }),
        final(b)@.wf(),
{
    let ghost s0 = b@;
    let ghost fargs = args_view(fallback_arg_slices@);
    b.switch_to(static_idx);
    let v_static = b.call(Ty::Double, fallback_fn, fallback_arg_slices);
    let after_static = b.current_block();
    assert(b@.cur_insts().last() is Call);
    if !b.is_terminated() {
        b.push(Inst::Br { target: merge_idx });
    }
    proof {
        let r = s0.next_reg;
        let c = InstV::Call { dest: Some(r as u64), ret: Ty::Double, callee: fallback_fn@, args: fargs };
        let x = FnBuilderV { current: static_idx as int, next_reg: r + 1, ..s0 };
        lemma_append_cur_twice(x, seq![c], seq![InstV::Br { target: merge_idx }]);
        assert(seq![c] + seq![InstV::Br { target: merge_idx }] =~= seq![c, InstV::Br { target: merge_idx }]);
    }
    b.switch_to(merge_idx);
    let phi = b.fresh_reg();
    let incoming = vec![(Operand::Reg(v_override), override_blk), (Operand::Reg(v_static), after_static)];
    proof {
        assert(incoming@.map_values(|p: (Operand, usize)| (p.0@, p.1)) =~= seq![
            (OperandV::Reg(v_override), override_blk),
            (OperandV::Reg(v_static), static_idx),
        ]);
    }
    b.push(Inst::Phi { dest: phi, ty: Ty::Double, incoming });
    phi
}

/// Emits a runtime check before a static class-method dispatch. If the
/// receiver `recv_box` has an own property `property` (an override set via
/// `this.method = X`), the stored closure is invoked through
/// `js_native_call_value` with the user arguments (`lowered_args[1..]`,
/// spilled to an entry-block stack buffer) and `this` bound to
/// `lowered_args[0]`; otherwise `fallback_fn` is called with
/// `fallback_arg_slices`. Returns the register of the phi that unifies the
/// two results; the merge block becomes current.
#[verifier::rlimit(40)]
pub fn emit_own_method_override_check(
    b: &mut FnBuilder,
    recv_box: &Operand,
    property: &str,
    fallback_fn: &str,
    fallback_arg_slices: Vec<Arg>,
    lowered_args: &Vec<Operand>,
) -> (res: Operand)
    requires
        old(b)@.wf(),
        old(b)@.blocks.len() + 3 <= usize::MAX,
        old(b)@.next_reg + lowered_args@.len() + 16 <= u64::MAX,
    ensures
        final(b)@ == override_check_result(
            old(b)@,
            recv_box@,
            property@,
            property.len() as u64,
            fallback_fn@,
            args_view(fallback_arg_slices@),
            operands_view(lowered_args@),
        ),
        res@ == OperandV::Reg(
            (after_spill_reg(old(b)@.next_reg, user_arg_count(operands_view(lowered_args@))) + 4) as u64,
        ),
        final(b)@.wf(),
{
    let ghost pre = b@;
    let ghost lowered = operands_view(lowered_args@);
    // Intern the property name so (ptr, len) can be passed directly to the
    // override probe.
    let key_idx = b.intern(property);
    let name_len = property.len() as u64;
    let ghost interned = FnBuilderV { strings: intern_strings(pre.strings, property@), ..pre };
    assert(b@ == interned);
    assert(key_idx == intern_index(pre.strings, property@));
    let (own_method, override_idx, static_idx, merge_idx) = emit_probe(
        b,
        recv_box,
        key_idx,
        name_len,
        ("ovrcheck.override", "ovrcheck.static", "ovrcheck.merge"),
    );
    let ghost probed = b@;

    // Override path.
    b.switch_to(override_idx);
    let v_override = emit_override_path(b, own_method, lowered_args, merge_idx);
    let after_override = b.current_block();
    let ghost n = pre.blocks.len() as int;
    let ghost ovr = override_path_result(FnBuilderV { current: n, ..probed }, lowered, pre.next_reg, merge_idx);
    assert(b@ == ovr);

    // Static path and merge.
    let phi = emit_static_and_merge(b, static_idx, merge_idx, fallback_fn, fallback_arg_slices, v_override, after_override);
    proof {
        assert(after_override == n);
    }
    Operand::Reg(phi)
}

} // verus!
