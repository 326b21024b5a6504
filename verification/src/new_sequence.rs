//! The whole sequence of `new C(args)` for a user class, once the object is
//! allocated: `this` bound and the class pushed, the own constructor's
//! parameters bound, the field initializers before the constructor body,
//! the constructor step, the field initializers after it, and the scope
//! popped. Field initializers and constructor bodies are expressions and
//! statements lowered by the caller when the sequence reaches them; every
//! other step is emitted here (`run_new_op`).

use vstd::prelude::*;

use crate::class_layout::ClassInfo;
use crate::field_init::FieldInitMode;
use crate::new_ctor::{ctor_step_spec, lookup_ctor, lookup_ctor_exec, new_ctor_step, CtorStep, CtorStepV};
use crate::new_init::{init_after, init_before, new_init_plan};
use crate::new_ctor::{
    bound_count, emit_error_init, emit_imported_ctor_call, error_init_result, padded_args, param_binding,
};
use crate::new_scope::{bind_ctor_scope, bound_locals, enter_new, leave_new, restore_locals, switch_class, NewScope, NewScopeV};
use crate::ir::{copy_operand, operands_view, DeclareV, FnBuilder, FnBuilderV, InstV, Operand, OperandV, Ty};

verus! {

/// One step of `new`.
#[derive(Debug)]
pub enum NewOp {
    /// Bind `this` to the new object in a fresh slot; push it and the class.
    EnterNew(String),
    /// Save the locals and bind the parameters of the constructor of this
    /// class index (missing arguments `undefined` with `pad`, else only
    /// those with an argument).
    BindParams { class: usize, pad: bool },
    /// Run these field initializers (lowered by the caller).
    ApplyFields(FieldInitMode),
    /// Run the body of this class index's constructor (lowered by the
    /// caller).
    LowerBody(usize),
    /// Make this class the innermost one.
    SwitchClass(String),
    /// Restore the saved locals.
    RestoreLocals,
    /// Initialize the object as this built-in `Error` kind.
    ErrorInit(String),
    /// Call this imported constructor (symbol, parameter count).
    ImportedCall(String, usize),
    /// Pop `this` and the class.
    LeaveNew,
}

/// The mathematical value of a step.
pub enum NewOpV {
    EnterNew(Seq<char>),
    BindParams { class: int, pad: bool },
    ApplyFields(FieldInitMode),
    LowerBody(int),
    SwitchClass(Seq<char>),
    RestoreLocals,
    ErrorInit(Seq<char>),
    ImportedCall(Seq<char>, usize),
    LeaveNew,
}

impl View for NewOp {
    type V = NewOpV;

    open spec fn view(&self) -> NewOpV {
        match self {
            NewOp::EnterNew(c) => NewOpV::EnterNew(c@),
            NewOp::BindParams { class, pad } => NewOpV::BindParams { class: *class as int, pad: *pad },
            NewOp::ApplyFields(m) => NewOpV::ApplyFields(*m),
            NewOp::LowerBody(j) => NewOpV::LowerBody(*j as int),
            NewOp::SwitchClass(c) => NewOpV::SwitchClass(c@),
            NewOp::RestoreLocals => NewOpV::RestoreLocals,
            NewOp::ErrorInit(k) => NewOpV::ErrorInit(k@),
            NewOp::ImportedCall(c, n) => NewOpV::ImportedCall(c@, *n),
            NewOp::LeaveNew => NewOpV::LeaveNew,
        }
    }
}

/// The views of steps.
pub open spec fn ops_view(ops: Seq<NewOp>) -> Seq<NewOpV> {
    ops.map_values(|o: NewOp| o@)
}

/// The constructor step's part of the sequence: the own body, then the
/// locals restored; or the nearest ancestor's parameters bound, its class
/// made the innermost one, its body, the class switched back and the
/// locals restored; or the `Error` initialization; or the imported
/// constructor call; or nothing.
pub open spec fn body_ops(classes: Seq<ClassInfo>, ctors: Seq<(String, String, usize)>, i: int) -> Seq<NewOpV> {
    match ctor_step_spec(classes, ctors, i) {
        CtorStepV::Own => seq![NewOpV::LowerBody(i), NewOpV::RestoreLocals],
        CtorStepV::Inherited(j) => seq![
            NewOpV::BindParams { class: j, pad: true },
            NewOpV::SwitchClass(classes[j].name@),
            NewOpV::LowerBody(j),
            NewOpV::SwitchClass(classes[i].name@),
            NewOpV::RestoreLocals,
        ],
        CtorStepV::ErrorInit(k) => seq![NewOpV::ErrorInit(k)],
        CtorStepV::ImportedCall(c, n) => seq![NewOpV::ImportedCall(c, n)],
        CtorStepV::NoBody => Seq::empty(),
    }
}

/// Whether class `i` has an imported constructor (which applies its own
/// fields).
pub open spec fn has_imported_ctor(classes: Seq<ClassInfo>, ctors: Seq<(String, String, usize)>, i: int) -> bool {
    lookup_ctor(ctors, classes[i].name@) is Some
}

/// The field initializer steps of the modes `ms`, in order.
pub open spec fn field_ops(ms: Seq<FieldInitMode>) -> Seq<NewOpV> {
    ms.map_values(|m: FieldInitMode| NewOpV::ApplyFields(m))
}

/// The sequence of `new` of class `i` (`ctors` the imported
/// constructors): enter; with an own constructor, its parameters bound;
/// the field initializers of `init_before`; the constructor step
/// (`body_ops`); the field initializers of `init_after`; leave.
pub open spec fn new_sequence_spec(classes: Seq<ClassInfo>, ctors: Seq<(String, String, usize)>, i: int) -> Seq<NewOpV> {
    seq![NewOpV::EnterNew(classes[i].name@)] + (if classes[i].has_ctor {
        seq![NewOpV::BindParams { class: i, pad: false }]
    } else {
        Seq::empty()
    }) + field_ops(init_before(classes, i)) + body_ops(classes, ctors, i) + (match init_after(
        classes,
        i,
        has_imported_ctor(classes, ctors, i),
    ) {
        Some(m) => seq![NewOpV::ApplyFields(m)],
        None => Seq::empty(),
    }) + seq![NewOpV::LeaveNew]
}

fn push_fields(ops: &mut Vec<NewOp>, modes: Vec<FieldInitMode>)
    ensures
        ops_view(final(ops)@) == ops_view(old(ops)@) + field_ops(modes@),
{
    let ghost ms = modes@;
    let ghost start = ops_view(ops@);
    assert(ms.len() == modes.len());
    let mut rest = modes;
    let mut k: usize = 0;
    while rest.len() > 0
        invariant
            k + rest@.len() == ms.len(),
            ms.len() <= usize::MAX,
            rest@ == ms.skip(k as int),
            ops_view(ops@) == start + field_ops(ms.take(k as int)),
        decreases rest@.len(),
    {
        let ghost before = ops@;
        let m = rest.remove(0);
        assert(m == ms[k as int]);
        ops.push(NewOp::ApplyFields(m));
        assert(ops_view(ops@) =~= ops_view(before).push(NewOpV::ApplyFields(ms[k as int])));
        assert(field_ops(ms.take(k + 1)) =~= field_ops(ms.take(k as int)).push(NewOpV::ApplyFields(ms[k as int])));
        assert(rest@ =~= ms.skip(k + 1));
        k = k + 1;
    }
    assert(ms.take(k as int) =~= ms);
}

/// The sequence of `new` of class `i` (see `new_sequence_spec`); `ctors`
/// are the imported constructors (class, symbol, parameter count). Run
/// step by step (`run_new_op`), it leaves the scope as it found it,
/// whatever slot and locals its steps make (`law_new_sequence_balanced`).
pub fn new_sequence(classes: &Vec<ClassInfo>, ctors: &Vec<(String, String, usize)>, i: usize) -> (ops: Vec<NewOp>)
    requires
        i < classes@.len(),
    ensures
        ops_view(ops@) == new_sequence_spec(classes@, ctors@, i as int),
        forall|st: NewRunV, slot: u64, xs: spec_fn(int) -> Seq<(u32, u64)>|
            st.saved is None ==> #[trigger] scope_kept(ops_view(ops@), st, slot, xs),
{
    let ghost ii = i as int;
    let imported = lookup_ctor_exec(ctors, classes[i].name.as_str()).is_some();
    let plan = new_init_plan(classes, i, imported);
    let step = new_ctor_step(classes, ctors, i);
    let mut ops: Vec<NewOp> = Vec::new();
    ops.push(NewOp::EnterNew(classes[i].name.clone()));
    if classes[i].has_ctor {
        ops.push(NewOp::BindParams { class: i, pad: false });
    }
    let ghost p1 = ops_view(ops@);
    assert(p1 =~= seq![NewOpV::EnterNew(classes@[ii].name@)] + (if classes@[ii].has_ctor {
        seq![NewOpV::BindParams { class: ii, pad: false }]
    } else {
        Seq::empty()
    }));
    push_fields(&mut ops, plan.before);
    let ghost p2 = ops_view(ops@);
    match step {
        CtorStep::Own => {
            ops.push(NewOp::LowerBody(i));
            ops.push(NewOp::RestoreLocals);
        },
        CtorStep::Inherited(j) => {
            ops.push(NewOp::BindParams { class: j, pad: true });
            ops.push(NewOp::SwitchClass(classes[j].name.clone()));
            ops.push(NewOp::LowerBody(j));
            ops.push(NewOp::SwitchClass(classes[i].name.clone()));
            ops.push(NewOp::RestoreLocals);
        },
        CtorStep::ErrorInit(k) => {
            ops.push(NewOp::ErrorInit(k));
        },
        CtorStep::ImportedCall(c, n) => {
            ops.push(NewOp::ImportedCall(c, n));
        },
        CtorStep::NoBody => {},
    }
    assert(ops_view(ops@) =~= p2 + body_ops(classes@, ctors@, ii));
    let ghost p3 = ops_view(ops@);
    match plan.after {
        Some(m) => {
            ops.push(NewOp::ApplyFields(m));
        },
        None => {},
    }
    ops.push(NewOp::LeaveNew);
    assert(ops_view(ops@) =~= new_sequence_spec(classes@, ctors@, ii));
    assert forall|st: NewRunV, slot: u64, xs: spec_fn(int) -> Seq<(u32, u64)>| st.saved is None implies #[trigger] scope_kept(
        ops_view(ops@),
        st,
        slot,
        xs,
    ) by {
        law_new_sequence_balanced(classes@, ctors@, ii, st, slot, xs);
    }
    ops
}

/// The scope a `new` sequence runs in: the `this` slots, the class stack,
/// the locals, and the locals saved while a constructor's parameters are
/// bound.
pub struct NewRunV {
    pub this_stack: Seq<u64>,
    pub class_stack: Seq<Seq<char>>,
    pub locals: Seq<(u32, u64)>,
    pub saved: Option<Seq<(u32, u64)>>,
}

/// The scope after step `op` from `st`: `slot` is the `this` slot entering
/// makes, and `x` the locals the step leaves where it sets them (binding
/// parameters adds them; a constructor body may bind more). Field
/// initializers and the emitted initializations leave the scope as it is.
pub open spec fn op_effect(op: NewOpV, st: NewRunV, slot: u64, x: Seq<(u32, u64)>) -> NewRunV {
    match op {
        NewOpV::EnterNew(c) => NewRunV { this_stack: st.this_stack.push(slot), class_stack: st.class_stack.push(c), ..st },
        NewOpV::BindParams { .. } => NewRunV { locals: x, saved: Some(st.locals), ..st },
        NewOpV::LowerBody(_) => NewRunV { locals: x, ..st },
        NewOpV::SwitchClass(c) => NewRunV { class_stack: st.class_stack.drop_last().push(c), ..st },
        NewOpV::RestoreLocals => match st.saved {
            Some(l) => NewRunV { locals: l, saved: None, ..st },
            None => st,
        },
        NewOpV::LeaveNew => NewRunV {
            this_stack: st.this_stack.drop_last(),
            class_stack: st.class_stack.drop_last(),
            ..st
        },
        _ => st,
    }
}

/// The scope after the steps `ops` from `st`, the step at position `k + n`
/// leaving the locals `xs(k + n)` where it sets them.
pub open spec fn run_ops(ops: Seq<NewOpV>, st: NewRunV, slot: u64, xs: spec_fn(int) -> Seq<(u32, u64)>, k: int) -> NewRunV
    decreases ops.len(),
{
    if ops.len() == 0 {
        st
    } else {
        run_ops(ops.drop_first(), op_effect(ops[0], st, slot, xs(k)), slot, xs, k + 1)
    }
}

proof fn lemma_run_concat(
    a: Seq<NewOpV>,
    b: Seq<NewOpV>,
    st: NewRunV,
    slot: u64,
    xs: spec_fn(int) -> Seq<(u32, u64)>,
    k: int,
)
    ensures
        run_ops(a + b, st, slot, xs, k) == run_ops(b, run_ops(a, st, slot, xs, k), slot, xs, k + a.len()),
    decreases a.len(),
{
    if a.len() == 0 {
        assert(a + b =~= b);
    } else {
        assert((a + b).drop_first() =~= a.drop_first() + b);
        assert((a + b)[0] == a[0]);
        lemma_run_concat(a.drop_first(), b, op_effect(a[0], st, slot, xs(k)), slot, xs, k + 1);
    }
}

proof fn lemma_fields_keep_scope(ms: Seq<FieldInitMode>, st: NewRunV, slot: u64, xs: spec_fn(int) -> Seq<(u32, u64)>, k: int)
    ensures
        run_ops(field_ops(ms), st, slot, xs, k) == st,
    decreases ms.len(),
{
    if ms.len() > 0 {
        assert(field_ops(ms).drop_first() =~= field_ops(ms.drop_first()));
        lemma_fields_keep_scope(ms.drop_first(), st, slot, xs, k + 1);
    }
}

/// After the steps `ops` from `st` the `this` stack, the class stack and
/// the locals are those of `st`, and nothing stays saved.
pub open spec fn scope_kept(ops: Seq<NewOpV>, st: NewRunV, slot: u64, xs: spec_fn(int) -> Seq<(u32, u64)>) -> bool {
    let end = run_ops(ops, st, slot, xs, 0);
    &&& end.this_stack == st.this_stack
    &&& end.class_stack == st.class_stack
    &&& end.locals == st.locals
    &&& end.saved is None
}

/// `new` leaves the scope as it found it: whatever slot `this` gets and
/// whatever locals binding parameters and lowering constructor bodies
/// leave (the field initializers and bodies leaving the `this` and class
/// stacks as they found them), after the whole sequence the `this` stack,
/// the class stack and the locals are those before it, and nothing stays
/// saved.
pub proof fn law_new_sequence_balanced(
    classes: Seq<ClassInfo>,
    ctors: Seq<(String, String, usize)>,
    i: int,
    st: NewRunV,
    slot: u64,
    xs: spec_fn(int) -> Seq<(u32, u64)>,
)
    requires
        0 <= i < classes.len(),
        st.saved is None,
    ensures
        scope_kept(new_sequence_spec(classes, ctors, i), st, slot, xs),
{
    let a1: Seq<NewOpV> = seq![NewOpV::EnterNew(classes[i].name@)];
    let a2: Seq<NewOpV> = if classes[i].has_ctor {
        seq![NewOpV::BindParams { class: i, pad: false }]
    } else {
        Seq::empty()
    };
    let a3 = field_ops(init_before(classes, i));
    let a4 = body_ops(classes, ctors, i);
    let a5: Seq<NewOpV> = match init_after(classes, i, has_imported_ctor(classes, ctors, i)) {
        Some(m) => seq![NewOpV::ApplyFields(m)],
        None => Seq::empty(),
    };
    let a6: Seq<NewOpV> = seq![NewOpV::LeaveNew];
    assert(new_sequence_spec(classes, ctors, i) == a1 + a2 + a3 + a4 + a5 + a6);
    lemma_run_concat(a1 + a2 + a3 + a4 + a5, a6, st, slot, xs, 0);
    lemma_run_concat(a1 + a2 + a3 + a4, a5, st, slot, xs, 0);
    lemma_run_concat(a1 + a2 + a3, a4, st, slot, xs, 0);
    lemma_run_concat(a1 + a2, a3, st, slot, xs, 0);
    lemma_run_concat(a1, a2, st, slot, xs, 0);
    let s1 = run_ops(a1, st, slot, xs, 0);
    lemma_single(a1[0], st, slot, xs, 0);
    assert(a1 =~= seq![a1[0]]);
    let s2 = run_ops(a2, s1, slot, xs, 1);
    if classes[i].has_ctor {
        assert(a2 =~= seq![a2[0]]);
        lemma_single(a2[0], s1, slot, xs, 1);
    }
    let s3 = run_ops(a3, s2, slot, xs, 1 + a2.len() as int);
    lemma_fields_keep_scope(init_before(classes, i), s2, slot, xs, 1 + a2.len() as int);
    let k4: int = (1 + a2.len() + a3.len()) as int;
    lemma_body_ops(classes, ctors, i, s3, slot, xs, k4);
    let s4 = run_ops(a4, s3, slot, xs, k4);
    let s5 = run_ops(a5, s4, slot, xs, k4 + a4.len() as int);
    if a5.len() > 0 {
        assert(a5 =~= seq![a5[0]]);
        lemma_single(a5[0], s4, slot, xs, k4 + a4.len() as int);
    }
    let s6 = run_ops(a6, s5, slot, xs, k4 + a4.len() + a5.len() as int);
    lemma_single(a6[0], s5, slot, xs, k4 + a4.len() + a5.len() as int);
    assert(a6 =~= seq![a6[0]]);
    assert(s6.this_stack =~= st.this_stack);
    assert(s6.class_stack =~= st.class_stack);
}

proof fn lemma_single(op: NewOpV, st: NewRunV, slot: u64, xs: spec_fn(int) -> Seq<(u32, u64)>, k: int)
    ensures
        run_ops(seq![op], st, slot, xs, k) == op_effect(op, st, slot, xs(k)),
{
    assert(seq![op].drop_first() =~= Seq::<NewOpV>::empty());
    assert(run_ops(Seq::<NewOpV>::empty(), op_effect(op, st, slot, xs(k)), slot, xs, k + 1) == op_effect(op, st, slot, xs(k)));
}

proof fn lemma_body_ops(
    classes: Seq<ClassInfo>,
    ctors: Seq<(String, String, usize)>,
    i: int,
    st: NewRunV,
    slot: u64,
    xs: spec_fn(int) -> Seq<(u32, u64)>,
    k: int,
)
    requires
        0 <= i < classes.len(),
        st.class_stack.len() > 0,
        st.class_stack.last() == classes[i].name@,
        classes[i].has_ctor ==> st.saved is Some,
        !classes[i].has_ctor ==> st.saved is None,
    ensures
        ({
            let e = run_ops(body_ops(classes, ctors, i), st, slot, xs, k);
            &&& e.this_stack == st.this_stack
            &&& e.class_stack == st.class_stack
            &&& e.saved is None
            &&& e.locals == (if classes[i].has_ctor { st.saved->0 } else { st.locals })
        }),
{
    let ops = body_ops(classes, ctors, i);
    match ctor_step_spec(classes, ctors, i) {
        CtorStepV::Own => {
            lemma_run_concat(seq![ops[0]], seq![ops[1]], st, slot, xs, k);
            assert(ops =~= seq![ops[0]] + seq![ops[1]]);
            lemma_single(ops[0], st, slot, xs, k);
            lemma_single(ops[1], op_effect(ops[0], st, slot, xs(k)), slot, xs, k + 1);
        },
        CtorStepV::Inherited(j) => {
            let q0 = seq![ops[0]];
            let q1 = seq![ops[1]];
            let q2 = seq![ops[2]];
            let q3 = seq![ops[3]];
            let q4 = seq![ops[4]];
            assert(ops =~= q0 + q1 + q2 + q3 + q4);
            lemma_run_concat(q0 + q1 + q2 + q3, q4, st, slot, xs, k);
            lemma_run_concat(q0 + q1 + q2, q3, st, slot, xs, k);
            lemma_run_concat(q0 + q1, q2, st, slot, xs, k);
            lemma_run_concat(q0, q1, st, slot, xs, k);
            let t1 = op_effect(ops[0], st, slot, xs(k));
            lemma_single(ops[0], st, slot, xs, k);
            let t2 = op_effect(ops[1], t1, slot, xs(k + 1));
            lemma_single(ops[1], t1, slot, xs, k + 1);
            let t3 = op_effect(ops[2], t2, slot, xs(k + 2));
            lemma_single(ops[2], t2, slot, xs, k + 2);
            let t4 = op_effect(ops[3], t3, slot, xs(k + 3));
            lemma_single(ops[3], t3, slot, xs, k + 3);
            let t5 = op_effect(ops[4], t4, slot, xs(k + 4));
            lemma_single(ops[4], t4, slot, xs, k + 4);
            assert(t5.class_stack =~= st.class_stack);
        },
        CtorStepV::ErrorInit(_) => {
            lemma_single(ops[0], st, slot, xs, k);
            assert(ops =~= seq![ops[0]]);
        },
        CtorStepV::ImportedCall(_, _) => {
            lemma_single(ops[0], st, slot, xs, k);
            assert(ops =~= seq![ops[0]]);
        },
        CtorStepV::NoBody => {},
    }
}

/// Who performs a step.
#[derive(Debug, PartialEq, Eq, Structural)]
pub enum NewOpOutcome {
    /// It was emitted.
    Emitted,
    /// Field initializers or a constructor body: the caller lowers them.
    Caller,
}

/// The view of saved locals.
pub open spec fn saved_view(saved: Option<Vec<(u32, u64)>>) -> Option<Seq<(u32, u64)>> {
    match saved {
        Some(v) => Some(v@),
        None => None,
    }
}

/// The run state of a scope and its saved locals.
pub open spec fn run_view(s: NewScopeV, saved: Option<Vec<(u32, u64)>>) -> NewRunV {
    NewRunV { this_stack: s.this_stack, class_stack: s.class_stack, locals: s.locals, saved: saved_view(saved) }
}

/// The first lowered argument, if any.
pub open spec fn first_arg(vals: Seq<OperandV>) -> Option<OperandV> {
    if vals.len() > 0 {
        Some(vals[0])
    } else {
        None
    }
}

/// The function state after step `op` from `pre`: entering stores the new
/// object `obj` in a fresh `this` slot; binding parameters binds the
/// parameters `ids` to the arguments `vals`; the `Error` initialization
/// reads `this` from `this_slot` and takes the first argument as the
/// message; the imported constructor is declared and called with the
/// object and the padded arguments; the other steps emit nothing.
pub open spec fn op_emission(pre: FnBuilderV, op: NewOpV, obj: OperandV, ids: Seq<u32>, vals: Seq<OperandV>, this_slot: u64) -> FnBuilderV {
    match op {
        NewOpV::EnterNew(_) => {
            let slot = pre.next_reg;
            (FnBuilderV {
                next_reg: slot + 1,
                allocas: pre.allocas.push(InstV::AllocaSlot { dest: slot as u64, ty: Ty::Double }),
                ..pre
            }).append_cur(seq![InstV::Store { ty: Ty::Double, val: obj, ptr: OperandV::Reg(slot as u64) }])
        },
        NewOpV::BindParams { pad, .. } => param_binding(pre, vals, bound_count(ids.len(), vals.len(), pad)),
        NewOpV::ErrorInit(k) => {
            let (strings, insts, next) = error_init_result(pre.strings, this_slot, first_arg(vals), k, pre.next_reg);
            (FnBuilderV { next_reg: next, strings, ..pre }).append_cur(insts)
        },
        NewOpV::ImportedCall(c, n) => {
            let call_args = seq![(Ty::Double, obj)] + padded_args(vals, n as nat).map_values(|v: OperandV| (Ty::Double, v));
            (FnBuilderV {
                declares: pre.declares.push(
                    DeclareV { name: c, ret: Ty::Void, params: Seq::new(call_args.len(), |k: int| Ty::Double) },
                ),
                ..pre
            }).append_cur(seq![InstV::Call { dest: None, ret: Ty::Void, callee: c, args: call_args }])
        },
        _ => pre,
    }
}

/// Performs step `op` of a `new` sequence on the scope `s` (with the
/// locals saved in `saved`) and the function `b`: `obj_box` is the new
/// object, `param_ids` the parameters of the constructor whose parameters
/// a binding step binds, `lowered_args` the lowered arguments. Field
/// initializers and constructor bodies are answered `Caller`, with nothing
/// done; every other step is emitted (see `op_emission`) and changes the
/// scope as `op_effect` says, binding parameters as `bound_locals` says.
pub fn run_new_op(
    s: &mut NewScope,
    saved: &mut Option<Vec<(u32, u64)>>,
    b: &mut FnBuilder,
    op: &NewOp,
    obj_box: &Operand,
    param_ids: &Vec<u32>,
    lowered_args: &Vec<Operand>,
) -> (res: NewOpOutcome)
    requires
        old(b)@.wf(),
        old(b)@.next_reg + param_ids@.len() + 7 <= u64::MAX,
        op@ is ErrorInit ==> old(s)@.this_stack.len() > 0,
        op@ is SwitchClass || op@ is LeaveNew ==> old(s)@.class_stack.len() > 0,
        op@ is LeaveNew ==> old(s)@.this_stack.len() > 0,
    ensures
        final(b)@.wf(),
        res == (if op@ is ApplyFields || op@ is LowerBody {
            NewOpOutcome::Caller
        } else {
            NewOpOutcome::Emitted
        }),
        run_view(final(s)@, *final(saved)) == op_effect(
            op@,
            run_view(old(s)@, *old(saved)),
            old(b)@.next_reg as u64,
            final(s)@.locals,
        ),
        final(b)@ == op_emission(
            old(b)@,
            op@,
            obj_box@,
            param_ids@,
            operands_view(lowered_args@),
            old(s)@.this_stack.last(),
        ),
        op@ matches NewOpV::BindParams { pad, .. } ==> final(s)@.locals == bound_locals(
            old(s)@.locals,
            param_ids@,
            old(b)@.next_reg,
            bound_count(param_ids@.len(), lowered_args@.len(), pad),
        ),
{
    match op {
        NewOp::EnterNew(c) => {
            enter_new(s, b, copy_operand(obj_box), c.as_str());
            NewOpOutcome::Emitted
        },
        NewOp::BindParams { pad, .. } => {
            let old_locals = bind_ctor_scope(s, b, param_ids, lowered_args, *pad);
            *saved = Some(old_locals);
            NewOpOutcome::Emitted
        },
        NewOp::ApplyFields(_) => NewOpOutcome::Caller,
        NewOp::LowerBody(_) => NewOpOutcome::Caller,
        NewOp::SwitchClass(c) => {
            switch_class(s, c.as_str());
            NewOpOutcome::Emitted
        },
        NewOp::RestoreLocals => {
            let taken = saved.take();
            match taken {
                Some(l) => restore_locals(s, l),
                None => {},
            }
            NewOpOutcome::Emitted
        },
        NewOp::ErrorInit(k) => {
            let slot = s.this_stack[s.this_stack.len() - 1];
            let first = if lowered_args.len() > 0 {
                Some(copy_operand(&lowered_args[0]))
            } else {
                None
            };
            emit_error_init(b, slot, first, k.as_str());
            NewOpOutcome::Emitted
        },
        NewOp::ImportedCall(c, n) => {
            emit_imported_ctor_call(b, c.as_str(), *n, copy_operand(obj_box), lowered_args);
            NewOpOutcome::Emitted
        },
        NewOp::LeaveNew => {
            leave_new(s);
            NewOpOutcome::Emitted
        },
    }
}

} // verus!
