//! The allocation of a user-class instance for `new C(args)`: inline bump
//! allocation from the per-function arena state when the class has a
//! pre-built keys array (a fast block that bumps the offset, a slow block
//! that asks the runtime for a new arena block, and a merge block that
//! writes the GC and object headers), or else the runtime's keyed
//! allocator with the class's packed field names.

use vstd::prelude::*;

use crate::class_layout::{
    chain_ends, class_packed_keys, gc_header_word, gc_header_word_exec, object_total_size, object_total_size_exec,
    packed_keys, pair_word, pair_word_exec, total_field_count, total_field_count_exec, ClassInfo,
};
use crate::ir::{args_view, insts_view, BlockV, FnBuilder, FnBuilderV, Inst, InstV, Operand, OperandV, Ty};
use crate::method_dispatch::{byte_len, pool_byte_len};
use crate::override_check::{intern_index, intern_strings};

verus! {

/// The object type of a regular object in the object header.
pub const OBJECT_TYPE_REGULAR: u32 = 1;

/// The instructions of the current block of an inline allocation of
/// `total` bytes from register `r`; the fast, slow and merge blocks are
/// `n`, `n + 1` and `n + 2`. `r`: the class's keys array, `r + 1`: the
/// arena state, `r + 3`: its bump offset, `r + 4`: the offset after this
/// object, `r + 6`: the arena block's size, `r + 7`: whether it fits.
pub open spec fn alloc_entry(keys_slot: OperandV, arena_slot: OperandV, total: u64, r: int, n: int) -> Seq<InstV> {
    let reg = |k: int| OperandV::Reg((r + k) as u64);
    seq![
        InstV::Load { dest: r as u64, ty: Ty::I64, ptr: keys_slot },
        InstV::Load { dest: (r + 1) as u64, ty: Ty::Ptr, ptr: arena_slot },
        InstV::Gep { dest: (r + 2) as u64, elem: Ty::I8, base: reg(1), index: 8 },
        InstV::Load { dest: (r + 3) as u64, ty: Ty::I64, ptr: reg(2) },
        InstV::Add { dest: (r + 4) as u64, ty: Ty::I64, lhs: reg(3), rhs: OperandV::Int(total) },
        InstV::Gep { dest: (r + 5) as u64, elem: Ty::I8, base: reg(1), index: 16 },
        InstV::Load { dest: (r + 6) as u64, ty: Ty::I64, ptr: reg(5) },
        InstV::IntUle { dest: (r + 7) as u64, ty: Ty::I64, lhs: reg(4), rhs: reg(6) },
        InstV::CondBr { cond: reg(7), if_true: n as usize, if_false: (n + 1) as usize },
    ]
}

/// The fast block: store the bumped offset and take the object at the old
/// offset of the arena's data (`r + 9`).
pub open spec fn alloc_fast(r: int, n: int) -> Seq<InstV> {
    let reg = |k: int| OperandV::Reg((r + k) as u64);
    seq![
        InstV::Store { ty: Ty::I64, val: reg(4), ptr: reg(2) },
        InstV::Load { dest: (r + 8) as u64, ty: Ty::Ptr, ptr: reg(1) },
        InstV::GepDyn { dest: (r + 9) as u64, elem: Ty::I8, base: reg(8), index: reg(3) },
        InstV::Br { target: (n + 2) as usize },
    ]
}

/// The slow block: the runtime allocates from a new arena block (`r + 10`).
pub open spec fn alloc_slow(total: u64, r: int, n: int) -> Seq<InstV> {
    seq![
        InstV::Call {
            dest: Some((r + 10) as u64),
            ret: Ty::Ptr,
            callee: "js_inline_arena_slow_alloc"@,
            args: seq![(Ty::Ptr, OperandV::Reg((r + 1) as u64)), (Ty::I64, OperandV::Int(total)), (Ty::I64, OperandV::Int(8))],
        },
        InstV::Br { target: (n + 2) as usize },
    ]
}

/// The merge block: join the raw pointer (`r + 11`), write the GC header,
/// the object type and class id, the parent class id and field count,
/// and the keys array, and take the object header's address as an `i64`
/// (`r + 16`).
pub open spec fn alloc_merge(total: u64, class_id: u32, parent_id: u32, field_count: u32, r: int, n: int) -> Seq<InstV> {
    let reg = |k: int| OperandV::Reg((r + k) as u64);
    seq![
        InstV::Phi { dest: (r + 11) as u64, ty: Ty::Ptr, incoming: seq![(reg(9), n as usize), (reg(10), (n + 1) as usize)] },
        InstV::Store { ty: Ty::I64, val: OperandV::Int(gc_header_word(total) as u64), ptr: reg(11) },
        InstV::Gep { dest: (r + 12) as u64, elem: Ty::I8, base: reg(11), index: 8 },
        InstV::Store { ty: Ty::I64, val: OperandV::Int(pair_word(OBJECT_TYPE_REGULAR, class_id) as u64), ptr: reg(12) },
        InstV::Gep { dest: (r + 13) as u64, elem: Ty::I8, base: reg(11), index: 16 },
        InstV::Store { ty: Ty::I64, val: OperandV::Int(pair_word(parent_id, field_count) as u64), ptr: reg(13) },
        InstV::Gep { dest: (r + 14) as u64, elem: Ty::I8, base: reg(11), index: 24 },
        InstV::Store { ty: Ty::I64, val: reg(0), ptr: reg(14) },
        InstV::Gep { dest: (r + 15) as u64, elem: Ty::I8, base: reg(11), index: 8 },
        InstV::PtrToInt { dest: (r + 16) as u64, val: reg(15) },
    ]
}

/// The function state after an inline allocation from `pre` of an object
/// of class `class_id` (parent `parent_id`) with `field_count` fields, the
/// keys array and arena state read from their entry-block slots; the
/// merge block becomes current.
pub open spec fn inline_alloc_result(
    pre: FnBuilderV,
    keys_slot: OperandV,
    arena_slot: OperandV,
    class_id: u32,
    parent_id: u32,
    field_count: u32,
) -> FnBuilderV {
    let r = pre.next_reg;
    let n = pre.blocks.len() as int;
    let total = object_total_size(field_count as nat) as u64;
    let with_entry = pre.append_cur(alloc_entry(keys_slot, arena_slot, total, r, n));
    FnBuilderV {
        blocks: with_entry.blocks.push(BlockV { name: "alloc.fast"@, insts: alloc_fast(r, n) }).push(
            BlockV { name: "alloc.slow"@, insts: alloc_slow(total, r, n) },
        ).push(BlockV { name: "alloc.merge"@, insts: alloc_merge(total, class_id, parent_id, field_count, r, n) }),
        current: n + 2,
        next_reg: r + 17,
        ..pre
    }
}

/// Emits the inline bump allocation of an object of class `class_id`
/// (parent `parent_id`) with `field_count` fields (see
/// `inline_alloc_result`); `keys_slot` and `arena_slot` hold the class's
/// keys array and the function's arena state. Returns the object's
/// address as an `i64`.
pub fn emit_inline_object_alloc(
    b: &mut FnBuilder,
    keys_slot: Operand,
    arena_slot: Operand,
    class_id: u32,
    parent_id: u32,
    field_count: u32,
) -> (res: Operand)
    requires
        old(b)@.wf(),
        old(b)@.next_reg + 17 <= u64::MAX,
        old(b)@.blocks.len() + 3 <= usize::MAX,
    ensures
        res@ == OperandV::Reg((old(b)@.next_reg + 16) as u64),
        final(b)@ == inline_alloc_result(old(b)@, keys_slot@, arena_slot@, class_id, parent_id, field_count),
        final(b)@.wf(),
{
    let ghost pre = b@;
    let ghost kv = keys_slot@;
    let ghost av = arena_slot@;
    let total = object_total_size_exec(field_count);
    let r = b.reserve_regs(17);
    let n = b.num_blocks();
    let entry = vec![
        Inst::Load { dest: r, ty: Ty::I64, ptr: keys_slot },
        Inst::Load { dest: r + 1, ty: Ty::Ptr, ptr: arena_slot },
        Inst::Gep { dest: r + 2, elem: Ty::I8, base: Operand::Reg(r + 1), index: 8 },
        Inst::Load { dest: r + 3, ty: Ty::I64, ptr: Operand::Reg(r + 2) },
        Inst::Add { dest: r + 4, ty: Ty::I64, lhs: Operand::Reg(r + 3), rhs: Operand::Int(total) },
        Inst::Gep { dest: r + 5, elem: Ty::I8, base: Operand::Reg(r + 1), index: 16 },
        Inst::Load { dest: r + 6, ty: Ty::I64, ptr: Operand::Reg(r + 5) },
        Inst::IntUle { dest: r + 7, ty: Ty::I64, lhs: Operand::Reg(r + 4), rhs: Operand::Reg(r + 6) },
        Inst::CondBr { cond: Operand::Reg(r + 7), if_true: n, if_false: n + 1 },
    ];
    assert(insts_view(entry@) =~= alloc_entry(kv, av, total, r as int, n as int));
    b.push_all(entry);
    let fast_idx = b.new_block("alloc.fast");
    let slow_idx = b.new_block("alloc.slow");
    let merge_idx = b.new_block("alloc.merge");

    b.switch_to(fast_idx);
    let fast = vec![
        Inst::Store { ty: Ty::I64, val: Operand::Reg(r + 4), ptr: Operand::Reg(r + 2) },
        Inst::Load { dest: r + 8, ty: Ty::Ptr, ptr: Operand::Reg(r + 1) },
        Inst::GepDyn { dest: r + 9, elem: Ty::I8, base: Operand::Reg(r + 8), index: Operand::Reg(r + 3) },
        Inst::Br { target: merge_idx },
    ];
    assert(insts_view(fast@) =~= alloc_fast(r as int, n as int));
    b.push_all(fast);

    b.switch_to(slow_idx);
    let slow_args = vec![(Ty::Ptr, Operand::Reg(r + 1)), (Ty::I64, Operand::Int(total)), (Ty::I64, Operand::Int(8))];
    assert(args_view(slow_args@) =~= seq![
        (Ty::Ptr, OperandV::Reg((r + 1) as u64)),
        (Ty::I64, OperandV::Int(total)),
        (Ty::I64, OperandV::Int(8)),
    ]);
    let slow = vec![
        Inst::Call {
            dest: Some(r + 10),
            ret: Ty::Ptr,
            callee: String::from_str("js_inline_arena_slow_alloc"),
            args: slow_args,
        },
        Inst::Br { target: merge_idx },
    ];
    assert(insts_view(slow@) =~= alloc_slow(total, r as int, n as int));
    b.push_all(slow);

    b.switch_to(merge_idx);
    let gc_word = gc_header_word_exec(total);
    let word1 = pair_word_exec(OBJECT_TYPE_REGULAR, class_id);
    let word2 = pair_word_exec(parent_id, field_count);
    let incoming = vec![(Operand::Reg(r + 9), fast_idx), (Operand::Reg(r + 10), slow_idx)];
    assert(incoming@.map_values(|p: (Operand, usize)| (p.0@, p.1)) =~= seq![
        (OperandV::Reg((r + 9) as u64), n),
        (OperandV::Reg((r + 10) as u64), (n + 1) as usize),
    ]);
    let merge = vec![
        Inst::Phi { dest: r + 11, ty: Ty::Ptr, incoming },
        Inst::Store { ty: Ty::I64, val: Operand::Int(gc_word), ptr: Operand::Reg(r + 11) },
        Inst::Gep { dest: r + 12, elem: Ty::I8, base: Operand::Reg(r + 11), index: 8 },
        Inst::Store { ty: Ty::I64, val: Operand::Int(word1), ptr: Operand::Reg(r + 12) },
        Inst::Gep { dest: r + 13, elem: Ty::I8, base: Operand::Reg(r + 11), index: 16 },
        Inst::Store { ty: Ty::I64, val: Operand::Int(word2), ptr: Operand::Reg(r + 13) },
        Inst::Gep { dest: r + 14, elem: Ty::I8, base: Operand::Reg(r + 11), index: 24 },
        Inst::Store { ty: Ty::I64, val: Operand::Reg(r), ptr: Operand::Reg(r + 14) },
        Inst::Gep { dest: r + 15, elem: Ty::I8, base: Operand::Reg(r + 11), index: 8 },
        Inst::PtrToInt { dest: r + 16, val: Operand::Reg(r + 15) },
    ];
    assert(insts_view(merge@) =~= alloc_merge(total, class_id, parent_id, field_count, r as int, n as int));
    b.push_all(merge);
    proof {
        let post = inline_alloc_result(pre, kv, av, class_id, parent_id, field_count);
        assert(Seq::<InstV>::empty() + alloc_fast(r as int, n as int) =~= alloc_fast(r as int, n as int));
        assert(Seq::<InstV>::empty() + alloc_slow(total, r as int, n as int) =~= alloc_slow(total, r as int, n as int));
        assert(Seq::<InstV>::empty() + alloc_merge(total, class_id, parent_id, field_count, r as int, n as int)
            =~= alloc_merge(total, class_id, parent_id, field_count, r as int, n as int));
        assert(b@.blocks =~= post.blocks);
    }
    Operand::Reg(r + 16)
}

/// The function state after the keyed allocation from `pre` of an object
/// of class `class_id` (parent `parent_id`) with `field_count` fields and
/// the packed field-name keys `keys`: the keys interned in the string
/// pool and `js_object_alloc_class_with_keys` called with their bytes and
/// byte length.
pub open spec fn keyed_alloc_result(
    pre: FnBuilderV,
    class_id: u32,
    parent_id: u32,
    field_count: u32,
    keys: Seq<char>,
) -> FnBuilderV {
    let r = pre.next_reg;
    let idx = intern_index(pre.strings, keys);
    (FnBuilderV { next_reg: r + 1, strings: intern_strings(pre.strings, keys), ..pre }).append_cur(
        seq![
            InstV::Call {
                dest: Some(r as u64),
                ret: Ty::I64,
                callee: "js_object_alloc_class_with_keys"@,
                args: seq![
                    (Ty::I32, OperandV::Int(class_id as u64)),
                    (Ty::I32, OperandV::Int(parent_id as u64)),
                    (Ty::I32, OperandV::Int(field_count as u64)),
                    (Ty::Ptr, OperandV::StrBytes(idx as usize)),
                    (Ty::I32, OperandV::Int(pool_byte_len(keys))),
                ],
            },
        ],
    )
}

/// Emits the runtime's keyed allocation of an object of class `class_id`
/// (parent `parent_id`) with `field_count` fields whose packed field-name
/// keys are `keys` (see `keyed_alloc_result`). Returns the object's
/// address as an `i64`.
pub fn emit_keyed_object_alloc(b: &mut FnBuilder, class_id: u32, parent_id: u32, field_count: u32, keys: &str) -> (res:
    Operand)
    requires
        old(b)@.wf(),
        old(b)@.next_reg < u64::MAX,
    ensures
        res@ == OperandV::Reg(old(b)@.next_reg as u64),
        final(b)@ == keyed_alloc_result(old(b)@, class_id, parent_id, field_count, keys@),
        final(b)@.wf(),
{
    let ghost pre = b@;
    let idx = b.intern(keys);
    let len = byte_len(keys);
    proof {
        if pre.strings.contains(keys@) {
            assert(b@ == pre);
        } else {
            assert(b@.strings =~= intern_strings(pre.strings, keys@));
        }
    }
    let args = vec![
        (Ty::I32, Operand::Int(class_id as u64)),
        (Ty::I32, Operand::Int(parent_id as u64)),
        (Ty::I32, Operand::Int(field_count as u64)),
        (Ty::Ptr, Operand::StrBytes(idx)),
        (Ty::I32, Operand::Int(len)),
    ];
    assert(args_view(args@) =~= seq![
        (Ty::I32, OperandV::Int(class_id as u64)),
        (Ty::I32, OperandV::Int(parent_id as u64)),
        (Ty::I32, OperandV::Int(field_count as u64)),
        (Ty::Ptr, OperandV::StrBytes(idx)),
        (Ty::I32, OperandV::Int(pool_byte_len(keys@))),
    ]);
    let r = b.call(Ty::I64, "js_object_alloc_class_with_keys", args);
    Operand::Reg(r)
}

/// Where the slots of an inline allocation live: the class's keys array
/// and the function's arena state, each in an entry-block slot.
pub struct InlineSlots {
    pub keys_slot: Operand,
    pub arena_slot: Operand,
}

/// The function state and value after allocating an instance of class
/// `i` from `pre`: its field count (inherited fields included), the inline
/// allocation when `slots` are given, else the keyed one with the packed
/// keys, and the NaN-boxing of the object's address.
pub open spec fn new_alloc_result(
    pre: FnBuilderV,
    classes: Seq<ClassInfo>,
    i: int,
    class_id: u32,
    parent_id: u32,
    slots: Option<(OperandV, OperandV)>,
) -> (FnBuilderV, OperandV) {
    let fc = total_field_count(classes, i) as u32;
    let (mid, h) = match slots {
        Some((k, a)) => (
            inline_alloc_result(pre, k, a, class_id, parent_id, fc),
            OperandV::Reg((pre.next_reg + 16) as u64),
        ),
        None => (
            keyed_alloc_result(pre, class_id, parent_id, fc, packed_keys(classes, i, classes.len())),
            OperandV::Reg(pre.next_reg as u64),
        ),
    };
    (
        (FnBuilderV { next_reg: mid.next_reg + 1, ..mid }).append_cur(
            seq![InstV::NanboxPointer { dest: mid.next_reg as u64, val: h }],
        ),
        OperandV::Reg(mid.next_reg as u64),
    )
}

/// The views of the inline-allocation slots.
pub open spec fn slots_view(slots: Option<InlineSlots>) -> Option<(OperandV, OperandV)> {
    match slots {
        Some(s) => Some((s.keys_slot@, s.arena_slot@)),
        None => None,
    }
}

/// Allocates an instance of user class `i` (its id `class_id`, its
/// parent's `parent_id`, 0 for none) for `new`: the field count with the
/// inherited fields, then the inline allocation when the class has a keys
/// array (`slots`), else the keyed allocation with its packed keys; the
/// object's address NaN-boxed as the new value (see `new_alloc_result`).
pub fn lower_new_alloc(
    b: &mut FnBuilder,
    classes: &Vec<ClassInfo>,
    i: usize,
    class_id: u32,
    parent_id: u32,
    slots: Option<InlineSlots>,
) -> (res: Operand)
    requires
        old(b)@.wf(),
        old(b)@.next_reg + 18 <= u64::MAX,
        old(b)@.blocks.len() + 3 <= usize::MAX,
        i < classes@.len(),
        chain_ends(classes@, i as int, classes@.len()),
        total_field_count(classes@, i as int) <= u32::MAX,
    ensures
        ({
            let (post, v) = new_alloc_result(old(b)@, classes@, i as int, class_id, parent_id, slots_view(slots));
            &&& final(b)@ == post
            &&& res@ == v
        }),
        final(b)@.wf(),
{
    let fc = total_field_count_exec(classes, i);
    let h = match slots {
        Some(s) => emit_inline_object_alloc(b, s.keys_slot, s.arena_slot, class_id, parent_id, fc),
        None => {
            let keys = class_packed_keys(classes, i);
            emit_keyed_object_alloc(b, class_id, parent_id, fc, keys.as_str())
        },
    };
    let r = b.fresh_reg();
    b.push(Inst::NanboxPointer { dest: r, val: h });
    Operand::Reg(r)
}

/// The entry-block slots a function has set up for inline allocation so
/// far: the arena state's, and each class's keys array's.
pub struct EntrySlotCache {
    pub arena: Option<u64>,
    pub keys: Vec<(String, u64)>,
}

/// The slot cached for class `c` (the first entry).
pub open spec fn cached_slot(keys: Seq<(String, u64)>, c: Seq<char>) -> Option<u64>
    decreases keys.len(),
{
    if keys.len() == 0 {
        None
    } else if keys[0].0@ == c {
        Some(keys[0].1)
    } else {
        cached_slot(keys.drop_first(), c)
    }
}

fn cached_slot_exec(keys: &Vec<(String, u64)>, c: &str) -> (res: Option<u64>)
    ensures
        res == cached_slot(keys@, c@),
{
    let mut k: usize = 0;
    assert(keys@.skip(0) =~= keys@);
    while k < keys.len()
        invariant
            k <= keys@.len(),
            cached_slot(keys@, c@) == cached_slot(keys@.skip(k as int), c@),
        decreases keys@.len() - k,
    {
        assert(keys@.skip(k as int).drop_first() =~= keys@.skip(k + 1));
        assert(keys@.skip(k as int)[0] == keys@[k as int]);
        if crate::text::str_eq(keys[k].0.as_str(), c) {
            return Some(keys[k].1);
        }
        k = k + 1;
    }
    None
}

/// The entry-block instructions that set up a slot in register `r` holding
/// `init`'s value (into `r + 1`): the slot, the initializing instruction,
/// the store.
pub open spec fn entry_slot_insts(r: int, ty: Ty, init: InstV) -> Seq<InstV> {
    seq![
        InstV::AllocaSlot { dest: r as u64, ty },
        init,
        InstV::Store { ty, val: OperandV::Reg((r + 1) as u64), ptr: OperandV::Reg(r as u64) },
    ]
}

/// The function state and the `(arena, keys)` slots an inline allocation of
/// class `c` reads, from `pre`: the arena-state slot (`arena`, when the
/// function has one) or else a new one initialized in the entry block by
/// `js_inline_arena_state()`; then the class's keys slot (`keys`, when the
/// function has one) or else a new one initialized in the entry block from
/// the class's keys global `keys_global`.
pub open spec fn entry_slots_result(pre: FnBuilderV, arena: Option<u64>, keys: Option<u64>, keys_global: Seq<char>) -> (
    FnBuilderV,
    u64,
    u64,
) {
    let r = pre.next_reg;
    let (s1, a) = match arena {
        Some(a) => (pre, a),
        None => (
            FnBuilderV {
                next_reg: r + 2,
                allocas: pre.allocas + entry_slot_insts(
                    r,
                    Ty::Ptr,
                    InstV::Call { dest: Some((r + 1) as u64), ret: Ty::Ptr, callee: "js_inline_arena_state"@, args: seq![] },
                ),
                ..pre
            },
            r as u64,
        ),
    };
    let q = s1.next_reg;
    match keys {
        Some(k) => (s1, a, k),
        None => (
            FnBuilderV {
                next_reg: q + 2,
                allocas: s1.allocas + entry_slot_insts(
                    q,
                    Ty::I64,
                    InstV::Load { dest: (q + 1) as u64, ty: Ty::I64, ptr: OperandV::Global(keys_global) },
                ),
                ..s1
            },
            a,
            q as u64,
        ),
    }
}

fn emit_entry_slot(b: &mut FnBuilder, ty: Ty, init: Inst) -> (r: u64)
    requires
        old(b)@.next_reg + 2 <= u64::MAX,
    ensures
        r == old(b)@.next_reg,
        final(b)@ == (FnBuilderV { next_reg: r + 2, allocas: old(b)@.allocas + entry_slot_insts(r as int, ty, init@), ..old(b)@ }),
{
    let ghost pre = b@;
    let ghost iv = init@;
    let r = b.reserve_regs(2);
    b.push_entry(Inst::AllocaSlot { dest: r, ty });
    b.push_entry(init);
    b.push_entry(Inst::Store { ty, val: Operand::Reg(r + 1), ptr: Operand::Reg(r) });
    assert(b@.allocas =~= pre.allocas + entry_slot_insts(r as int, ty, iv));
    r
}

/// The slots an inline allocation of class `class` (keys global
/// `keys_global`) reads, set up in the entry block on first use and cached
/// in `cache` (see `entry_slots_result`).
pub fn inline_alloc_slots(b: &mut FnBuilder, cache: &mut EntrySlotCache, class: &str, keys_global: &str) -> (res: InlineSlots)
    requires
        old(b)@.next_reg + 4 <= u64::MAX,
    ensures
        ({
            let (post, a, k) = entry_slots_result(old(b)@, old(cache).arena, cached_slot(old(cache).keys@, class@), keys_global@);
            &&& final(b)@ == post
            &&& res.arena_slot@ == OperandV::Reg(a)
            &&& res.keys_slot@ == OperandV::Reg(k)
            &&& final(cache).arena == Some(a)
            &&& cached_slot(final(cache).keys@, class@) == Some(k)
        }),
{
    let ghost pre = b@;
    let ghost keys0 = cache.keys@;
    let a = match cache.arena {
        Some(a) => a,
        None => {
            let no_args: Vec<(Ty, Operand)> = Vec::new();
            assert(args_view(no_args@) =~= Seq::<(Ty, OperandV)>::empty());
            let d = b.peek_reg() + 1;
            let a = emit_entry_slot(
                b,
                Ty::Ptr,
                Inst::Call { dest: Some(d), ret: Ty::Ptr, callee: String::from_str("js_inline_arena_state"), args: no_args },
            );
            cache.arena = Some(a);
            a
        },
    };
    let k = match cached_slot_exec(&cache.keys, class) {
        Some(k) => k,
        None => {
            let q = b.peek_reg();
            let k = emit_entry_slot(
                b,
                Ty::I64,
                Inst::Load { dest: q + 1, ty: Ty::I64, ptr: Operand::Global(String::from_str(keys_global)) },
            );
            let ghost before = cache.keys@;
            let entry = (String::from_str(class), k);
            assert(entry.0@ == class@);
            cache.keys.insert(0, entry);
            assert(cache.keys@[0].0@ == class@);
            assert(cache.keys@[0].1 == k);
            assert(cache.keys@.len() > 0);
            assert(cached_slot(cache.keys@, class@) == Some(k));
            k
        },
    };
    proof {
        let (post, ea, ek) = entry_slots_result(pre, old(cache).arena, cached_slot(keys0, class@), keys_global@);
        assert(a == ea);
        assert(k == ek);
        assert(b@ == post);
    }
    InlineSlots { keys_slot: Operand::Reg(k), arena_slot: Operand::Reg(a) }
}

} // verus!
