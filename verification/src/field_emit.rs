//! The field writes a class's initializers make on a new object: one per
//! declared field, string-keyed fields first and computed-key fields
//! after, a field without an initializer written as `undefined`; and the
//! write of an arrow-function field that captures `this`, whose closure
//! gets the new object patched into its reserved capture slot first.

use vstd::prelude::*;

use crate::ir::{args_view, copy_operand, insts_view, FnBuilder, FnBuilderV, Inst, InstV, Operand, OperandV, Ty};
use crate::override_check::{intern_index, intern_strings};

verus! {

/// What a field's initializer is, as far as its write depends on it: the
/// field's name (for a string key), whether its key is computed, whether
/// it has an initializer, and, for an arrow function capturing `this`, the
/// index of the closure's reserved `this` capture slot.
pub struct FieldInitInfo {
    pub name: String,
    pub computed: bool,
    pub has_init: bool,
    pub arrow_this_slot: Option<u32>,
}

/// One field write.
#[derive(Clone, Debug)]
pub enum FieldWrite {
    /// An arrow field capturing `this`: its closure, with `this` patched
    /// into capture slot `this_slot`, stored under `name`.
    Arrow { name: String, this_slot: u32 },
    /// `this.name = init`, or `undefined` when the field has no
    /// initializer.
    Named { name: String, undefined: bool },
    /// `this[key] = init` for a computed key, or `undefined`.
    Computed { undefined: bool },
}

/// The mathematical value of a field write.
pub enum FieldWriteV {
    Arrow { name: Seq<char>, this_slot: u32 },
    Named { name: Seq<char>, undefined: bool },
    Computed { undefined: bool },
}

impl View for FieldWrite {
    type V = FieldWriteV;

    open spec fn view(&self) -> FieldWriteV {
        match self {
            FieldWrite::Arrow { name, this_slot } => FieldWriteV::Arrow { name: name@, this_slot: *this_slot },
            FieldWrite::Named { name, undefined } => FieldWriteV::Named { name: name@, undefined: *undefined },
            FieldWrite::Computed { undefined } => FieldWriteV::Computed { undefined: *undefined },
        }
    }
}

/// The write of a string-keyed field.
pub open spec fn keyed_write(f: FieldInitInfo) -> FieldWriteV {
    match f.arrow_this_slot {
        Some(k) => if f.has_init {
            FieldWriteV::Arrow { name: f.name@, this_slot: k }
        } else {
            FieldWriteV::Named { name: f.name@, undefined: true }
        },
        None => FieldWriteV::Named { name: f.name@, undefined: !f.has_init },
    }
}

/// The writes of the string-keyed fields, in declaration order.
pub open spec fn keyed_writes(fs: Seq<FieldInitInfo>) -> Seq<FieldWriteV>
    decreases fs.len(),
{
    if fs.len() == 0 {
        Seq::empty()
    } else if fs.last().computed {
        keyed_writes(fs.drop_last())
    } else {
        keyed_writes(fs.drop_last()).push(keyed_write(fs.last()))
    }
}

/// The writes of the computed-key fields, in declaration order.
pub open spec fn computed_writes(fs: Seq<FieldInitInfo>) -> Seq<FieldWriteV>
    decreases fs.len(),
{
    if fs.len() == 0 {
        Seq::empty()
    } else if fs.last().computed {
        computed_writes(fs.drop_last()).push(FieldWriteV::Computed { undefined: !fs.last().has_init })
    } else {
        computed_writes(fs.drop_last())
    }
}

/// The writes a class's field initializers make: the string-keyed fields'
/// in declaration order, then the computed-key fields'.
pub open spec fn field_writes_spec(fs: Seq<FieldInitInfo>) -> Seq<FieldWriteV> {
    keyed_writes(fs) + computed_writes(fs)
}

/// The views of field writes.
pub open spec fn writes_view(ws: Seq<FieldWrite>) -> Seq<FieldWriteV> {
    ws.map_values(|w: FieldWrite| w@)
}

/// The writes a class's field initializers make (see `field_writes_spec`).
pub fn field_writes(fields: &Vec<FieldInitInfo>) -> (res: Vec<FieldWrite>)
    ensures
        writes_view(res@) == field_writes_spec(fields@),
{
    let mut keyed: Vec<FieldWrite> = Vec::new();
    let mut computed: Vec<FieldWrite> = Vec::new();
    let mut i: usize = 0;
    while i < fields.len()
        invariant
            i <= fields@.len(),
            writes_view(keyed@) == keyed_writes(fields@.take(i as int)),
            writes_view(computed@) == computed_writes(fields@.take(i as int)),
        decreases fields@.len() - i,
    {
        let ghost t = fields@.take(i + 1);
        assert(t.drop_last() =~= fields@.take(i as int));
        assert(t.last() == fields@[i as int]);
        let f = &fields[i];
        if f.computed {
            let ghost before = computed@;
            computed.push(FieldWrite::Computed { undefined: !f.has_init });
            assert(writes_view(computed@) =~= writes_view(before).push(FieldWriteV::Computed { undefined: !f.has_init }));
        } else {
            let w = match f.arrow_this_slot {
                Some(k) => if f.has_init {
                    FieldWrite::Arrow { name: f.name.clone(), this_slot: k }
                } else {
                    FieldWrite::Named { name: f.name.clone(), undefined: true }
                },
                None => FieldWrite::Named { name: f.name.clone(), undefined: !f.has_init },
            };
            assert(w@ == keyed_write(fields@[i as int]));
            let ghost before = keyed@;
            keyed.push(w);
            assert(writes_view(keyed@) =~= writes_view(before).push(keyed_write(fields@[i as int])));
        }
        i = i + 1;
    }
    assert(fields@.take(fields@.len() as int) =~= fields@);
    let ghost kv = writes_view(keyed@);
    let ghost cv = writes_view(computed@);
    keyed.append(&mut computed);
    assert(writes_view(keyed@) =~= kv + cv);
    keyed
}

/// The patch and the store of an arrow field's write, from register `q`:
/// the closure unboxed, `this_val` stored into its capture slot
/// `this_slot`, the field name's handle (pool entry `key`) loaded and
/// unboxed, `this_val` unboxed, the closure stored under the name.
pub open spec fn arrow_tail(closure: OperandV, this_val: OperandV, this_slot: u32, key: int, q: int) -> Seq<InstV> {
    seq![
        InstV::UnboxToI64 { dest: q as u64, val: closure },
        InstV::Call {
            dest: None,
            ret: Ty::Void,
            callee: "js_closure_set_capture_f64"@,
            args: seq![(Ty::I64, OperandV::Reg(q as u64)), (Ty::I32, OperandV::Int(this_slot as u64)), (Ty::Double, this_val)],
        },
        InstV::Load { dest: (q + 1) as u64, ty: Ty::Double, ptr: OperandV::StrHandle(key as usize) },
        InstV::UnboxToI64 { dest: (q + 2) as u64, val: OperandV::Reg((q + 1) as u64) },
        InstV::UnboxToI64 { dest: (q + 3) as u64, val: this_val },
        InstV::Call {
            dest: None,
            ret: Ty::Void,
            callee: "js_object_set_field_by_name"@,
            args: seq![
                (Ty::I64, OperandV::Reg((q + 3) as u64)),
                (Ty::I64, OperandV::Reg((q + 2) as u64)),
                (Ty::Double, closure),
            ],
        },
    ]
}

fn arrow_tail_exec(closure: Operand, this_val: Operand, this_slot: u32, key: usize, q: u64) -> (insts: Vec<Inst>)
    requires
        q + 4 <= u64::MAX,
    ensures
        insts_view(insts@) == arrow_tail(closure@, this_val@, this_slot, key as int, q as int),
{
    let ghost cv = closure@;
    let ghost tv = this_val@;
    let a1 = vec![(Ty::I64, Operand::Reg(q)), (Ty::I32, Operand::Int(this_slot as u64)), (Ty::Double, copy_operand(&this_val))];
    assert(args_view(a1@) =~= seq![(Ty::I64, OperandV::Reg(q)), (Ty::I32, OperandV::Int(this_slot as u64)), (Ty::Double, tv)]);
    let a2 = vec![(Ty::I64, Operand::Reg(q + 3)), (Ty::I64, Operand::Reg(q + 2)), (Ty::Double, copy_operand(&closure))];
    assert(args_view(a2@) =~= seq![(Ty::I64, OperandV::Reg((q + 3) as u64)), (Ty::I64, OperandV::Reg((q + 2) as u64)), (Ty::Double, cv)]);
    let insts = vec![
        Inst::UnboxToI64 { dest: q, val: closure },
        Inst::Call { dest: None, ret: Ty::Void, callee: String::from_str("js_closure_set_capture_f64"), args: a1 },
        Inst::Load { dest: q + 1, ty: Ty::Double, ptr: Operand::StrHandle(key) },
        Inst::UnboxToI64 { dest: q + 2, val: Operand::Reg(q + 1) },
        Inst::UnboxToI64 { dest: q + 3, val: this_val },
        Inst::Call { dest: None, ret: Ty::Void, callee: String::from_str("js_object_set_field_by_name"), args: a2 },
    ];
    assert(insts_view(insts@) =~= arrow_tail(cv, tv, this_slot, key as int, q as int));
    insts
}

/// The string pool and instructions of an arrow field's write, from
/// register `r`: `this` loaded from its slot (`0.0` without one); the
/// closure unboxed and `js_closure_set_capture_f64` storing `this` into
/// capture slot `this_slot`; the field name interned and its handle loaded
/// and unboxed; `this` unboxed; `js_object_set_field_by_name` storing the
/// closure. Also the next free register.
pub open spec fn arrow_field_result(
    strings: Seq<Seq<char>>,
    this_slot_reg: Option<u64>,
    closure: OperandV,
    this_slot: u32,
    name: Seq<char>,
    r: int,
) -> (Seq<Seq<char>>, Seq<InstV>, int) {
    let (head, this_val, q) = match this_slot_reg {
        Some(s) => (
            seq![InstV::Load { dest: r as u64, ty: Ty::Double, ptr: OperandV::Reg(s) }],
            OperandV::Reg(r as u64),
            r + 1,
        ),
        None => (Seq::empty(), OperandV::Zero, r),
    };
    (
        intern_strings(strings, name),
        head + arrow_tail(closure, this_val, this_slot, intern_index(strings, name), q),
        q + 4,
    )
}

/// Emits the write of an arrow field capturing `this` (see
/// `arrow_field_result`): `this_slot_reg` is the constructor's `this`
/// slot, if any, and `closure` the lowered closure.
pub fn emit_arrow_field_init(b: &mut FnBuilder, this_slot_reg: Option<u64>, closure: Operand, this_slot: u32, name: &str)
    requires
        old(b)@.wf(),
        old(b)@.next_reg + 5 <= u64::MAX,
    ensures
        ({
            let (strings, insts, next) = arrow_field_result(
                old(b)@.strings,
                this_slot_reg,
                closure@,
                this_slot,
                name@,
                old(b)@.next_reg,
            );
            final(b)@ == (FnBuilderV { next_reg: next, strings, ..old(b)@ }).append_cur(insts)
        }),
        final(b)@.wf(),
{
    let ghost pre = b@;
    let ghost cv = closure@;
    let r = b.peek_reg();
    let idx = b.intern(name);
    assert(b@ == (FnBuilderV { strings: intern_strings(pre.strings, name@), ..pre }));
    let mut insts: Vec<Inst> = Vec::new();
    let (this_val, q) = match this_slot_reg {
        Some(s) => {
            insts.push(Inst::Load { dest: r, ty: Ty::Double, ptr: Operand::Reg(s) });
            (Operand::Reg(r), r + 1)
        },
        None => (Operand::Zero, r),
    };
    let ghost head = insts_view(insts@);
    let ghost h0 = insts@;
    let ghost tv = this_val@;
    let mut tail = arrow_tail_exec(closure, this_val, this_slot, idx, q);
    let ghost tl = tail@;
    insts.append(&mut tail);
    assert(insts_view(insts@) =~= insts_view(h0) + insts_view(tl));
    proof {
        let (ws, wi, wn) = arrow_field_result(pre.strings, this_slot_reg, cv, this_slot, name@, r as int);
        assert(idx == intern_index(pre.strings, name@));
        match this_slot_reg {
            Some(s) => {
                assert(head =~= seq![InstV::Load { dest: r, ty: Ty::Double, ptr: OperandV::Reg(s) }]);
            },
            None => {
                assert(head =~= Seq::<InstV>::empty());
            },
        }
        assert(insts_view(insts@) =~= wi);
    }
    b.reserve_regs(q + 4 - r);
    b.push_all(insts);
}

} // verus!
