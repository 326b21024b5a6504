//! The constructor step of `new C(args)` for a user class: which body
//! runs (its own, the nearest ancestor's, the built-in `Error`
//! initialization, or an imported constructor), and what each emits around
//! it: the `this` slot, the parameter slots, the `message` / `name`
//! stores of an `Error`-like object, the call of an imported constructor.

use vstd::prelude::*;

use crate::fetch_ctor::opt_operand_view;
use crate::class_layout::{find_class, find_class_exec, inherited_ctor, inherited_ctor_class, lemma_find_class, ClassInfo};
use crate::ir::{args_view, copy_operand, insts_view, DeclareV, FnBuilder, FnBuilderV, Inst, InstV, JsTag, Operand, OperandV, Ty};
use crate::new_init::{error_like_ancestor, error_like_walk, ERROR_WALK_LIMIT};
use crate::override_check::{intern_index, intern_strings};
use crate::text::str_eq;

verus! {

/// The constructor of the first entry of `ctors` (`(class, constructor
/// symbol, parameter count)`) for class `c`.
pub open spec fn lookup_ctor(ctors: Seq<(String, String, usize)>, c: Seq<char>) -> Option<(Seq<char>, usize)>
    decreases ctors.len(),
{
    if ctors.len() == 0 {
        None
    } else if ctors[0].0@ == c {
        Some((ctors[0].1@, ctors[0].2))
    } else {
        lookup_ctor(ctors.drop_first(), c)
    }
}

pub(crate) fn lookup_ctor_exec(ctors: &Vec<(String, String, usize)>, c: &str) -> (res: Option<(String, usize)>)
    ensures
        match res {
            Some((s, n)) => lookup_ctor(ctors@, c@) == Some((s@, n)),
            None => lookup_ctor(ctors@, c@) is None,
        },
{
    let mut i: usize = 0;
    assert(ctors@.skip(0) =~= ctors@);
    while i < ctors.len()
        invariant
            i <= ctors@.len(),
            lookup_ctor(ctors@, c@) == lookup_ctor(ctors@.skip(i as int), c@),
        decreases ctors@.len() - i,
    {
        assert(ctors@.skip(i as int).drop_first() =~= ctors@.skip(i + 1));
        if str_eq(ctors[i].0.as_str(), c) {
            return Some((ctors[i].1.clone(), ctors[i].2));
        }
        i = i + 1;
    }
    None
}

/// Whether class `c` has an imported constructor with parameters (one
/// with a real body; a parameterless one is synthesized).
pub open spec fn has_real_ctor(ctors: Seq<(String, String, usize)>, c: Seq<char>) -> bool {
    match lookup_ctor(ctors, c) {
        Some((_, n)) => n > 0,
        None => false,
    }
}

/// The name a class extends, if any.
pub open spec fn ext_view(c: ClassInfo) -> Option<Seq<char>> {
    match c.extends {
        Some(e) => Some(e@),
        None => None,
    }
}

/// Whether the known class named `c` declares fields.
pub open spec fn class_has_fields(classes: Seq<ClassInfo>, c: Seq<char>) -> bool {
    match find_class(classes, c) {
        Some(k) => classes[k].fields.len() > 0,
        None => false,
    }
}

/// The class whose imported constructor `new leaf(...)` calls, walking up
/// from `eff` (which extends `ext`) through the known classes (at most
/// `fuel` steps): the first with a real imported constructor; the leaf
/// itself when it has an imported constructor and declares fields; else
/// the last class reached.
pub open spec fn imported_walk(
    classes: Seq<ClassInfo>,
    ctors: Seq<(String, String, usize)>,
    leaf: Seq<char>,
    eff: Seq<char>,
    ext: Option<Seq<char>>,
    fuel: nat,
) -> Seq<char>
    decreases fuel,
{
    if has_real_ctor(ctors, eff) {
        eff
    } else if eff == leaf && lookup_ctor(ctors, eff) is Some && class_has_fields(classes, eff) {
        eff
    } else {
        match ext {
            None => eff,
            Some(p) => match find_class(classes, p) {
                None => eff,
                Some(k) => if fuel > 0 {
                    imported_walk(classes, ctors, leaf, p, ext_view(classes[k]), (fuel - 1) as nat)
                } else {
                    eff
                },
            },
        }
    }
}

/// The imported constructor `new` of class `i` calls: an ancestor's found
/// by `imported_walk`, else the class's own, if it has one.
pub open spec fn imported_target(classes: Seq<ClassInfo>, ctors: Seq<(String, String, usize)>, i: int) -> Option<
    (Seq<char>, usize),
> {
    let leaf = classes[i].name@;
    let eff = imported_walk(classes, ctors, leaf, leaf, ext_view(classes[i]), classes.len());
    if eff != leaf && lookup_ctor(ctors, eff) is Some {
        lookup_ctor(ctors, eff)
    } else {
        lookup_ctor(ctors, leaf)
    }
}

/// The constructor step of `new`.
#[derive(Clone, Debug)]
pub enum CtorStep {
    /// The class's own constructor body runs, after its parameters are bound.
    Own,
    /// The body of the nearest ancestor (this class index) with a
    /// constructor runs, after its parameters are bound.
    Inherited(usize),
    /// No body runs; the object is initialized as this built-in `Error`
    /// kind.
    ErrorInit(String),
    /// No body runs; this imported constructor (symbol, parameter count)
    /// is called.
    ImportedCall(String, usize),
    /// Nothing runs.
    NoBody,
}

/// The mathematical value of a constructor step.
pub enum CtorStepV {
    Own,
    Inherited(int),
    ErrorInit(Seq<char>),
    ImportedCall(Seq<char>, usize),
    NoBody,
}

impl View for CtorStep {
    type V = CtorStepV;

    open spec fn view(&self) -> CtorStepV {
        match self {
            CtorStep::Own => CtorStepV::Own,
            CtorStep::Inherited(j) => CtorStepV::Inherited(*j as int),
            CtorStep::ErrorInit(k) => CtorStepV::ErrorInit(k@),
            CtorStep::ImportedCall(c, n) => CtorStepV::ImportedCall(c@, *n),
            CtorStep::NoBody => CtorStepV::NoBody,
        }
    }
}

/// The constructor step of `new` of class `i`: its own constructor; else
/// the nearest ancestor's; else, unless the class has a real imported
/// constructor, the `Error` initialization when it derives from an
/// `Error`-like built-in; else the imported constructor call of
/// `imported_target`; else nothing.
pub open spec fn ctor_step_spec(classes: Seq<ClassInfo>, ctors: Seq<(String, String, usize)>, i: int) -> CtorStepV {
    if classes[i].has_ctor {
        CtorStepV::Own
    } else {
        match inherited_ctor(classes, i, classes.len()) {
            Some(j) => CtorStepV::Inherited(j),
            None => {
                let err = if has_real_ctor(ctors, classes[i].name@) {
                    None
                } else {
                    error_like_walk(classes, ext_view(classes[i]), ERROR_WALK_LIMIT as nat)
                };
                match err {
                    Some(k) => CtorStepV::ErrorInit(k),
                    None => match imported_target(classes, ctors, i) {
                        Some((c, n)) => CtorStepV::ImportedCall(c, n),
                        None => CtorStepV::NoBody,
                    },
                }
            },
        }
    }
}

fn imported_walk_exec(
    classes: &Vec<ClassInfo>,
    ctors: &Vec<(String, String, usize)>,
    leaf: &str,
    eff: &str,
    ext: Option<&str>,
    fuel: usize,
) -> (res: String)
    ensures
        res@ == imported_walk(classes@, ctors@, leaf@, eff@, crate::text::opt_view(ext), fuel as nat),
    decreases fuel,
{
    let found = lookup_ctor_exec(ctors, eff);
    let has_real = match &found {
        Some((_, n)) => *n > 0,
        None => false,
    };
    if has_real {
        return String::from_str(eff);
    }
    if str_eq(eff, leaf) && found.is_some() {
        proof {
            lemma_find_class(classes@, eff@);
        }
        let has_fields = match find_class_exec(classes, eff) {
            Some(k) => classes[k].fields.len() > 0,
            None => false,
        };
        if has_fields {
            return String::from_str(eff);
        }
    }
    let p = match ext {
        None => return String::from_str(eff),
        Some(p) => p,
    };
    proof {
        lemma_find_class(classes@, p@);
    }
    let k = match find_class_exec(classes, p) {
        None => return String::from_str(eff),
        Some(k) => k,
    };
    if fuel == 0 {
        return String::from_str(eff);
    }
    match &classes[k].extends {
        Some(e) => imported_walk_exec(classes, ctors, leaf, p, Some(e.as_str()), fuel - 1),
        None => imported_walk_exec(classes, ctors, leaf, p, None, fuel - 1),
    }
}

proof fn lemma_inherited_ctor_index(classes: Seq<ClassInfo>, i: int, fuel: nat)
    requires
        0 <= i < classes.len(),
    ensures
        inherited_ctor(classes, i, fuel) matches Some(j) ==> 0 <= j < classes.len(),
    decreases fuel,
{
    if let Some(p) = classes[i].extends {
        lemma_find_class(classes, p@);
        if let Some(j) = find_class(classes, p@) {
            if fuel > 0 {
                lemma_inherited_ctor_index(classes, j, (fuel - 1) as nat);
            }
        }
    }
}

/// The constructor step of `new` of class `i` (see `ctor_step_spec`);
/// `ctors` are the imported constructors.
pub fn new_ctor_step(classes: &Vec<ClassInfo>, ctors: &Vec<(String, String, usize)>, i: usize) -> (res: CtorStep)
    requires
        i < classes@.len(),
    ensures
        res@ == ctor_step_spec(classes@, ctors@, i as int),
        res matches CtorStep::Inherited(j) ==> j < classes@.len(),
{
    if classes[i].has_ctor {
        return CtorStep::Own;
    }
    let n = classes.len();
    proof {
        lemma_inherited_ctor_index(classes@, i as int, n as nat);
    }
    if let Some(j) = inherited_ctor_class(classes, i) {
        return CtorStep::Inherited(j);
    }
    let leaf = classes[i].name.as_str();
    let has_real = match lookup_ctor_exec(ctors, leaf) {
        Some((_, n)) => n > 0,
        None => false,
    };
    if !has_real {
        if let Some(kind) = error_like_ancestor(classes, i) {
            return CtorStep::ErrorInit(kind);
        }
    }
    let eff = match &classes[i].extends {
        Some(e) => imported_walk_exec(classes, ctors, leaf, leaf, Some(e.as_str()), classes.len()),
        None => imported_walk_exec(classes, ctors, leaf, leaf, None, classes.len()),
    };
    let target = if !str_eq(eff.as_str(), leaf) {
        match lookup_ctor_exec(ctors, eff.as_str()) {
            Some(t) => Some(t),
            None => lookup_ctor_exec(ctors, leaf),
        }
    } else {
        lookup_ctor_exec(ctors, leaf)
    };
    match target {
        Some((c, n)) => CtorStep::ImportedCall(c, n),
        None => CtorStep::NoBody,
    }
}

/// Binds `this` for a constructor: a `double` slot hoisted into the entry
/// block, holding the new object. Returns the slot.
pub fn bind_new_this(b: &mut FnBuilder, obj_box: Operand) -> (slot: u64)
    requires
        old(b)@.wf(),
        old(b)@.next_reg < u64::MAX,
    ensures
        slot == old(b)@.next_reg,
        final(b)@ == (FnBuilderV {
            next_reg: slot + 1,
            allocas: old(b)@.allocas.push(InstV::AllocaSlot { dest: slot, ty: Ty::Double }),
            ..old(b)@
        }).append_cur(seq![InstV::Store { ty: Ty::Double, val: obj_box@, ptr: OperandV::Reg(slot) }]),
        final(b)@.wf(),
{
    let slot = b.alloca_entry(Ty::Double);
    b.push(Inst::Store { ty: Ty::Double, val: obj_box, ptr: Operand::Reg(slot) });
    slot
}

/// The value bound to parameter `k`: the `k`-th argument, or `undefined`
/// when fewer were passed.
pub open spec fn param_value(vals: Seq<OperandV>, k: int) -> OperandV {
    if k < vals.len() {
        vals[k]
    } else {
        OperandV::Tag(JsTag::Undefined)
    }
}

/// The number of parameters bound: every declared one when missing
/// arguments are padded (an inherited constructor), else only those with
/// an argument (the class's own constructor).
pub open spec fn bound_count(n_params: nat, nargs: nat, pad: bool) -> nat {
    if pad || n_params <= nargs {
        n_params
    } else {
        nargs
    }
}

/// Binds `count` constructor parameters from register `r`: a `double`
/// slot hoisted into the entry block for each, and a store of its value
/// (see `param_value`) in the current block.
pub open spec fn param_binding(pre: FnBuilderV, vals: Seq<OperandV>, count: nat) -> FnBuilderV {
    let r = pre.next_reg;
    (FnBuilderV {
        next_reg: r + count,
        allocas: pre.allocas + Seq::new(count, |k: int| InstV::AllocaSlot { dest: (r + k) as u64, ty: Ty::Double }),
        ..pre
    }).append_cur(
        Seq::new(
            count,
            |k: int| InstV::Store { ty: Ty::Double, val: param_value(vals, k), ptr: OperandV::Reg((r + k) as u64) },
        ),
    )
}

/// Binds the parameters of the constructor whose body runs, `n_params` of
/// them, to the lowered arguments (see `bound_count` and
/// `param_binding`). Returns the slots, in order.
pub fn bind_ctor_params(b: &mut FnBuilder, n_params: usize, lowered_args: &Vec<Operand>, pad: bool) -> (slots: Vec<u64>)
    requires
        old(b)@.wf(),
        old(b)@.next_reg + n_params <= u64::MAX,
    ensures
        ({
            let count = bound_count(n_params as nat, lowered_args@.len(), pad);
            &&& slots@ == Seq::new(count, |k: int| (old(b)@.next_reg + k) as u64)
            &&& final(b)@ == param_binding(old(b)@, crate::ir::operands_view(lowered_args@), count)
        }),
        final(b)@.wf(),
{
    let ghost pre = b@;
    let ghost vals = crate::ir::operands_view(lowered_args@);
    let count: usize = if pad || n_params <= lowered_args.len() {
        n_params
    } else {
        lowered_args.len()
    };
    let r = b.peek_reg();
    let mut slots: Vec<u64> = Vec::new();
    let mut k: usize = 0;
    proof {
        crate::ir::lemma_append_cur_empty(pre);
        assert(pre.allocas + Seq::new(0, |j: int| InstV::AllocaSlot { dest: (r + j) as u64, ty: Ty::Double })
            =~= pre.allocas);
        assert(param_binding(pre, vals, 0) == pre);
    }
    while k < count
        invariant
            k <= count <= n_params,
            r == pre.next_reg,
            pre.wf(),
            r + n_params <= u64::MAX,
            vals == crate::ir::operands_view(lowered_args@),
            slots@ == Seq::new(k as nat, |j: int| (r + j) as u64),
            b@ == param_binding(pre, vals, k as nat),
            b@.wf(),
        decreases count - k,
    {
        let ghost before = b@;
        let v = if k < lowered_args.len() {
            copy_operand(&lowered_args[k])
        } else {
            Operand::Tag(JsTag::Undefined)
        };
        assert(v@ == param_value(vals, k as int));
        let s = b.alloca_entry(Ty::Double);
        b.push(Inst::Store { ty: Ty::Double, val: v, ptr: Operand::Reg(s) });
        slots.push(s);
        proof {
            let cur = before.blocks[before.current];
            assert(Seq::new((k + 1) as nat, |j: int| (r + j) as u64) =~= Seq::new(k as nat, |j: int| (r + j) as u64).push(s));
            let a0 = Seq::new(k as nat, |j: int| InstV::AllocaSlot { dest: (r + j) as u64, ty: Ty::Double });
            let a1 = Seq::new((k + 1) as nat, |j: int| InstV::AllocaSlot { dest: (r + j) as u64, ty: Ty::Double });
            assert(pre.allocas + a1 =~= (pre.allocas + a0).push(InstV::AllocaSlot { dest: s, ty: Ty::Double }));
            let s0 = Seq::new(
                k as nat,
                |j: int| InstV::Store { ty: Ty::Double, val: param_value(vals, j), ptr: OperandV::Reg((r + j) as u64) },
            );
            let s1 = Seq::new(
                (k + 1) as nat,
                |j: int| InstV::Store { ty: Ty::Double, val: param_value(vals, j), ptr: OperandV::Reg((r + j) as u64) },
            );
            assert(s1 =~= s0 + seq![InstV::Store { ty: Ty::Double, val: v@, ptr: OperandV::Reg(s) }]);
            crate::ir::lemma_append_cur_twice(
                FnBuilderV { next_reg: r + k + 1, allocas: pre.allocas + a1, ..pre },
                s0,
                seq![InstV::Store { ty: Ty::Double, val: v@, ptr: OperandV::Reg(s) }],
            );
            assert(b@.blocks =~= param_binding(pre, vals, (k + 1) as nat).blocks);
        }
        k = k + 1;
    }
    slots
}

/// The `js_object_set_field_by_name` of the object whose handle is in
/// register `h`, of the key whose unboxed handle is in register `key`, to
/// value `v`.
pub open spec fn set_by_name(h: int, key: int, v: OperandV) -> InstV {
    InstV::Call {
        dest: None,
        ret: Ty::Void,
        callee: "js_object_set_field_by_name"@,
        args: seq![(Ty::I64, OperandV::Reg(h as u64)), (Ty::I64, OperandV::Reg(key as u64)), (Ty::Double, v)],
    }
}

/// The `message` part of an `Error` initialization (see
/// `error_init_result`) from register `r`: the string pool, the
/// instructions and the next free register.
pub open spec fn error_message_part(strings: Seq<Seq<char>>, first: Option<OperandV>, r: int) -> (
    Seq<Seq<char>>,
    Seq<InstV>,
    int,
) {
    match first {
        Some(m) => (
            intern_strings(strings, "message"@),
            seq![
                InstV::Load {
                    dest: (r + 2) as u64,
                    ty: Ty::Double,
                    ptr: OperandV::StrHandle(intern_index(strings, "message"@) as usize),
                },
                InstV::UnboxToI64 { dest: (r + 3) as u64, val: OperandV::Reg((r + 2) as u64) },
                set_by_name(r + 1, r + 3, m),
            ],
            r + 4,
        ),
        None => (strings, Seq::empty(), r + 2),
    }
}

/// The `name` part of an `Error` initialization (see `error_init_result`)
/// from register `q`, the object's handle in register `h`: the string
/// pool and the instructions.
pub open spec fn error_name_part(strings: Seq<Seq<char>>, kind: Seq<char>, h: int, q: int) -> (Seq<Seq<char>>, Seq<InstV>) {
    let s2 = intern_strings(strings, "name"@);
    (
        intern_strings(s2, kind),
        seq![
            InstV::Load {
                dest: q as u64,
                ty: Ty::Double,
                ptr: OperandV::StrHandle(intern_index(strings, "name"@) as usize),
            },
            InstV::UnboxToI64 { dest: (q + 1) as u64, val: OperandV::Reg(q as u64) },
            InstV::Load { dest: (q + 2) as u64, ty: Ty::Double, ptr: OperandV::StrHandle(intern_index(s2, kind) as usize) },
            set_by_name(h, q + 1, OperandV::Reg((q + 2) as u64)),
        ],
    )
}

/// The string pool and instructions of the `Error` initialization of the
/// object in `this_slot`, from register `r`: the object loaded and
/// unboxed; with a first argument, its `message` set to it; its `name` set
/// to the error kind's string. Keys and kind are interned in that order.
/// Also the next free register.
pub open spec fn error_init_result(strings: Seq<Seq<char>>, this_slot: u64, first: Option<OperandV>, kind: Seq<char>, r: int) -> (
    Seq<Seq<char>>,
    Seq<InstV>,
    int,
) {
    let head = seq![
        InstV::Load { dest: r as u64, ty: Ty::Double, ptr: OperandV::Reg(this_slot) },
        InstV::UnboxToI64 { dest: (r + 1) as u64, val: OperandV::Reg(r as u64) },
    ];
    let (s1, msg, q) = error_message_part(strings, first, r);
    let (s3, name) = error_name_part(s1, kind, r + 1, q);
    (s3, head + msg + name, q + 3)
}

fn error_message_exec(b: &mut FnBuilder, first: Option<Operand>, r: u64) -> (res: (Vec<Inst>, u64))
    requires
        r + 4 <= u64::MAX,
    ensures
        ({
            let (s1, msg, q) = error_message_part(old(b)@.strings, opt_operand_view(first), r as int);
            &&& final(b)@ == (FnBuilderV { strings: s1, ..old(b)@ })
            &&& insts_view(res.0@) == msg
            &&& res.1 == q
        }),
{
    match first {
        Some(m) => {
            let ghost pre = b@;
            let ghost mv = m@;
            let mi = b.intern("message");
            assert(b@ == (FnBuilderV { strings: intern_strings(pre.strings, "message"@), ..pre }));
            let a = vec![(Ty::I64, Operand::Reg(r + 1)), (Ty::I64, Operand::Reg(r + 3)), (Ty::Double, m)];
            assert(args_view(a@) =~= seq![
                (Ty::I64, OperandV::Reg((r + 1) as u64)),
                (Ty::I64, OperandV::Reg((r + 3) as u64)),
                (Ty::Double, mv),
            ]);
            let insts = vec![
                Inst::Load { dest: r + 2, ty: Ty::Double, ptr: Operand::StrHandle(mi) },
                Inst::UnboxToI64 { dest: r + 3, val: Operand::Reg(r + 2) },
                Inst::Call { dest: None, ret: Ty::Void, callee: String::from_str("js_object_set_field_by_name"), args: a },
            ];
            assert(insts_view(insts@) =~= error_message_part(pre.strings, Some(mv), r as int).1);
            (insts, r + 4)
        },
        None => {
            let insts: Vec<Inst> = Vec::new();
            assert(insts_view(insts@) =~= Seq::<InstV>::empty());
            (insts, r + 2)
        },
    }
}

#[verifier::rlimit(40)]
fn error_name_exec(b: &mut FnBuilder, kind: &str, h: u64, q: u64) -> (insts: Vec<Inst>)
    requires
        q + 3 <= u64::MAX,
    ensures
        ({
            let (s3, name) = error_name_part(old(b)@.strings, kind@, h as int, q as int);
            &&& final(b)@ == (FnBuilderV { strings: s3, ..old(b)@ })
            &&& insts_view(insts@) == name
        }),
{
    let ghost pre = b@;
    let ni = b.intern("name");
    assert(b@ == (FnBuilderV { strings: intern_strings(pre.strings, "name"@), ..pre }));
    let ghost mid = b@;
    let ki = b.intern(kind);
    assert(b@ == (FnBuilderV { strings: intern_strings(mid.strings, kind@), ..pre }));
    let a = vec![(Ty::I64, Operand::Reg(h)), (Ty::I64, Operand::Reg(q + 1)), (Ty::Double, Operand::Reg(q + 2))];
    assert(args_view(a@) =~= seq![
        (Ty::I64, OperandV::Reg(h)),
        (Ty::I64, OperandV::Reg((q + 1) as u64)),
        (Ty::Double, OperandV::Reg((q + 2) as u64)),
    ]);
    let insts = vec![
        Inst::Load { dest: q, ty: Ty::Double, ptr: Operand::StrHandle(ni) },
        Inst::UnboxToI64 { dest: q + 1, val: Operand::Reg(q) },
        Inst::Load { dest: q + 2, ty: Ty::Double, ptr: Operand::StrHandle(ki) },
        Inst::Call { dest: None, ret: Ty::Void, callee: String::from_str("js_object_set_field_by_name"), args: a },
    ];
    assert(insts_view(insts@) =~= error_name_part(pre.strings, kind@, h as int, q as int).1);
    insts
}

/// Initializes a constructor-less object deriving from the built-in
/// `Error` kind `kind` (see `error_init_result`): `this_slot` holds the
/// object, `first` is the first lowered argument, if any.
#[verifier::rlimit(30)]
pub fn emit_error_init(b: &mut FnBuilder, this_slot: u64, first: Option<Operand>, kind: &str)
    requires
        old(b)@.wf(),
        old(b)@.next_reg + 7 <= u64::MAX,
    ensures
        ({
            let (strings, insts, next) = error_init_result(
                old(b)@.strings,
                this_slot,
                opt_operand_view(first),
                kind@,
                old(b)@.next_reg,
            );
            final(b)@ == (FnBuilderV { next_reg: next, strings, ..old(b)@ }).append_cur(insts)
        }),
        final(b)@.wf(),
{
    let ghost pre = b@;
    let r = b.peek_reg();
    let mut insts: Vec<Inst> = Vec::new();
    insts.push(Inst::Load { dest: r, ty: Ty::Double, ptr: Operand::Reg(this_slot) });
    insts.push(Inst::UnboxToI64 { dest: r + 1, val: Operand::Reg(r) });
    let ghost head = insts_view(insts@);
    let ghost h0 = insts@;
    let (mut msg, q) = error_message_exec(b, first, r);
    let ghost m0 = msg@;
    let ghost mv = insts_view(msg@);
    let ghost (s1, wm, wq) = error_message_part(pre.strings, opt_operand_view(first), r as int);
    assert(b@ == (FnBuilderV { strings: s1, ..pre }));
    insts.append(&mut msg);
    let mut name = error_name_exec(b, kind, r + 1, q);
    let ghost n0 = name@;
    let ghost nv = insts_view(name@);
    let ghost (s3, wn) = error_name_part(s1, kind@, r + 1, wq);
    assert(b@ == (FnBuilderV { strings: s3, ..pre }));
    insts.append(&mut name);
    assert(insts@ == h0 + m0 + n0);
    assert(insts_view(insts@) =~= head + mv + nv);
    assert(insts_view(insts@) == error_init_result(pre.strings, this_slot, opt_operand_view(first), kind@, r as int).1);
    b.reserve_regs(q + 3 - r);
    b.push_all(insts);
}

/// The arguments an imported constructor is called with: the lowered
/// arguments, padded with `undefined` to its parameter count.
pub open spec fn padded_args(vals: Seq<OperandV>, n: nat) -> Seq<OperandV> {
    Seq::new(if vals.len() < n { n } else { vals.len() }, |k: int| param_value(vals, k))
}

/// Calls the imported constructor `ctor` (with `n_params` parameters) on
/// the new object `obj_box`: the constructor declared as `void` over one
/// `double` per argument, `this` first, then called with the object and
/// the padded arguments (see `padded_args`).
pub fn emit_imported_ctor_call(b: &mut FnBuilder, ctor: &str, n_params: usize, obj_box: Operand, lowered_args: &Vec<Operand>)
    requires
        old(b)@.wf(),
    ensures
        ({
            let vals = padded_args(crate::ir::operands_view(lowered_args@), n_params as nat);
            let call_args = seq![(Ty::Double, obj_box@)] + vals.map_values(|v: OperandV| (Ty::Double, v));
            final(b)@ == (FnBuilderV {
                declares: old(b)@.declares.push(
                    DeclareV { name: ctor@, ret: Ty::Void, params: Seq::new(call_args.len(), |k: int| Ty::Double) },
                ),
                ..old(b)@
            }).append_cur(seq![InstV::Call { dest: None, ret: Ty::Void, callee: ctor@, args: call_args }])
        }),
        final(b)@.wf(),
{
    let ghost vals = padded_args(crate::ir::operands_view(lowered_args@), n_params as nat);
    let ghost ov = obj_box@;
    let total: usize = if lowered_args.len() < n_params {
        n_params
    } else {
        lowered_args.len()
    };
    let mut args: Vec<(Ty, Operand)> = Vec::new();
    args.push((Ty::Double, obj_box));
    let mut params: Vec<Ty> = Vec::new();
    params.push(Ty::Double);
    let mut k: usize = 0;
    while k < total
        invariant
            k <= total,
            total == vals.len(),
            vals == padded_args(crate::ir::operands_view(lowered_args@), n_params as nat),
            args_view(args@) == seq![(Ty::Double, ov)] + vals.take(k as int).map_values(|v: OperandV| (Ty::Double, v)),
            params@ == Seq::new((k + 1) as nat, |j: int| Ty::Double),
        decreases total - k,
    {
        let v = if k < lowered_args.len() {
            copy_operand(&lowered_args[k])
        } else {
            Operand::Tag(JsTag::Undefined)
        };
        assert(v@ == vals[k as int]);
        let ghost before = args@;
        args.push((Ty::Double, v));
        params.push(Ty::Double);
        assert(vals.take(k + 1) =~= vals.take(k as int).push(vals[k as int]));
        assert(args_view(args@) =~= args_view(before).push((Ty::Double, vals[k as int])));
        assert(vals.take(k + 1).map_values(|v: OperandV| (Ty::Double, v)) =~= vals.take(k as int).map_values(
            |v: OperandV| (Ty::Double, v),
        ).push((Ty::Double, vals[k as int])));
        assert(params@ =~= Seq::new((k + 2) as nat, |j: int| Ty::Double));
        k = k + 1;
    }
    assert(vals.take(total as int) =~= vals);
    b.declare(ctor, Ty::Void, params);
    b.call_void(ctor, args);
}

/// The class keys of `ctors` are distinct, as those of the map they stand
/// for.
pub open spec fn ctor_keys_unique(ctors: Seq<(String, String, usize)>) -> bool {
    forall|i: int, j: int| 0 <= i < j < ctors.len() ==> ctors[i].0@ != ctors[j].0@
}

/// With distinct keys, `lookup_ctor` is the lookup of a map: for the class
/// of an entry it answers that entry's constructor (so the entries' order
/// does not matter), and for a class no entry has it answers `None`.
pub proof fn law_lookup_ctor_is_map_lookup(ctors: Seq<(String, String, usize)>, c: Seq<char>)
    requires
        ctor_keys_unique(ctors),
    ensures
        forall|k: int| 0 <= k < ctors.len() && #[trigger] ctors[k].0@ == c ==> lookup_ctor(ctors, c) == Some((ctors[k].1@, ctors[k].2)),
        (forall|k: int| 0 <= k < ctors.len() ==> #[trigger] ctors[k].0@ != c) ==> lookup_ctor(ctors, c) is None,
    decreases ctors.len(),
{
    if ctors.len() > 0 {
        let t = ctors.drop_first();
        assert forall|i: int, j: int| 0 <= i < j < t.len() implies t[i].0@ != t[j].0@ by {
            assert(t[i] == ctors[i + 1] && t[j] == ctors[j + 1]);
        }
        law_lookup_ctor_is_map_lookup(t, c);
        assert forall|k: int| 0 <= k < ctors.len() && #[trigger] ctors[k].0@ == c implies lookup_ctor(ctors, c) == Some(
            (ctors[k].1@, ctors[k].2),
        ) by {
            if k > 0 {
                assert(t[k - 1] == ctors[k]);
            }
        }
        if forall|k: int| 0 <= k < ctors.len() ==> #[trigger] ctors[k].0@ != c {
            assert forall|k: int| 0 <= k < t.len() implies #[trigger] t[k].0@ != c by {
                assert(t[k] == ctors[k + 1]);
            }
        }
    }
}

} // verus!
