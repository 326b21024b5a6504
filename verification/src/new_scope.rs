//! The scope `new C(args)` sets up around the inlined constructor body:
//! the new object on the `this` stack and its class on the class stack,
//! the constructor's parameters bound as locals (the enclosing function's
//! locals saved, and restored after the body), the class stack switched to
//! the ancestor whose constructor body runs, and both stacks popped at the
//! end.

use vstd::prelude::*;

use crate::ir::{FnBuilder, FnBuilderV, InstV, Operand, OperandV, Ty};
use crate::new_ctor::{bind_ctor_params, bind_new_this, bound_count, param_binding};

verus! {

/// The lowering scope of constructor bodies: the `this` slots, the
/// classes whose fields `this.x` resolves against, and the locals (each
/// local id with its slot; a later entry shadows an earlier one).
pub struct NewScope {
    pub this_stack: Vec<u64>,
    pub class_stack: Vec<String>,
    pub locals: Vec<(u32, u64)>,
}

/// The mathematical value of a scope.
pub struct NewScopeV {
    pub this_stack: Seq<u64>,
    pub class_stack: Seq<Seq<char>>,
    pub locals: Seq<(u32, u64)>,
}

impl View for NewScope {
    type V = NewScopeV;

    open spec fn view(&self) -> NewScopeV {
        NewScopeV {
            this_stack: self.this_stack@,
            class_stack: self.class_stack@.map_values(|c: String| c@),
            locals: self.locals@,
        }
    }
}

/// The scope after entering `new` of class `c` with `this` in `slot`.
pub open spec fn entered(s: NewScopeV, slot: u64, c: Seq<char>) -> NewScopeV {
    NewScopeV { this_stack: s.this_stack.push(slot), class_stack: s.class_stack.push(c), ..s }
}

/// The scope after leaving a `new`.
pub open spec fn left(s: NewScopeV) -> NewScopeV {
    NewScopeV { this_stack: s.this_stack.drop_last(), class_stack: s.class_stack.drop_last(), ..s }
}

/// Enters `new` of class `class`: the new object `obj_box` stored in a
/// fresh `this` slot (see `bind_new_this`), pushed with the class.
/// Returns the slot.
pub fn enter_new(s: &mut NewScope, b: &mut FnBuilder, obj_box: Operand, class: &str) -> (slot: u64)
    requires
        old(b)@.wf(),
        old(b)@.next_reg < u64::MAX,
    ensures
        slot == old(b)@.next_reg,
        final(b)@ == (FnBuilderV {
            next_reg: slot + 1,
            allocas: old(b)@.allocas.push(InstV::AllocaSlot { dest: slot, ty: Ty::Double }),
            ..old(b)@
        }).append_cur(seq![InstV::Store { ty: Ty::Double, val: obj_box@, ptr: OperandV::Reg(slot) }]),
        final(b)@.wf(),
        final(s)@ == entered(old(s)@, slot, class@),
{
    let slot = bind_new_this(b, obj_box);
    s.this_stack.push(slot);
    let ghost before = s.class_stack@;
    s.class_stack.push(String::from_str(class));
    assert(s.class_stack@.map_values(|c: String| c@) =~= before.map_values(|c: String| c@).push(class@));
    slot
}

/// Leaves a `new`: pops the `this` slot and the class.
pub fn leave_new(s: &mut NewScope)
    requires
        old(s).this_stack@.len() > 0,
        old(s).class_stack@.len() > 0,
    ensures
        final(s)@ == left(old(s)@),
{
    let ghost before = s.class_stack@;
    s.this_stack.pop();
    s.class_stack.pop();
    assert(s.this_stack@ =~= old(s)@.this_stack.drop_last());
    assert(s.class_stack@.map_values(|c: String| c@) =~= before.map_values(|c: String| c@).drop_last());
}

/// Leaving a `new` undoes entering it: the stacks are as before.
pub proof fn law_new_scope_balanced(s: NewScopeV, slot: u64, c: Seq<char>)
    ensures
        left(entered(s, slot, c)) == s,
{
    assert(s.this_stack.push(slot).drop_last() =~= s.this_stack);
    assert(s.class_stack.push(c).drop_last() =~= s.class_stack);
}

/// Switches the innermost class to `c` (the ancestor whose constructor
/// body runs, and back to the class after it).
pub fn switch_class(s: &mut NewScope, c: &str)
    requires
        old(s).class_stack@.len() > 0,
    ensures
        final(s)@ == (NewScopeV { class_stack: old(s)@.class_stack.drop_last().push(c@), ..old(s)@ }),
{
    let ghost before = s.class_stack@;
    s.class_stack.pop();
    s.class_stack.push(String::from_str(c));
    assert(s.class_stack@.map_values(|x: String| x@) =~= before.map_values(|x: String| x@).drop_last().push(c@));
}

/// The locals after binding parameters `ids` to the slots from register
/// `r`, `count` of them.
pub open spec fn bound_locals(locals: Seq<(u32, u64)>, ids: Seq<u32>, r: int, count: nat) -> Seq<(u32, u64)> {
    locals + Seq::new(count, |k: int| (ids[k], (r + k) as u64))
}

/// Binds the parameters `ids` of the constructor whose body runs to the
/// lowered arguments (see `bind_ctor_params`: all of them with `pad`,
/// missing ones `undefined`, else only those with an argument), each
/// recorded as a local. Returns the enclosing function's locals, to
/// restore after the body.
pub fn bind_ctor_scope(s: &mut NewScope, b: &mut FnBuilder, ids: &Vec<u32>, lowered_args: &Vec<Operand>, pad: bool) -> (saved:
    Vec<(u32, u64)>)
    requires
        old(b)@.wf(),
        old(b)@.next_reg + ids@.len() <= u64::MAX,
    ensures
        saved@ == old(s)@.locals,
        ({
            let count = bound_count(ids@.len(), lowered_args@.len(), pad);
            &&& final(b)@ == param_binding(old(b)@, crate::ir::operands_view(lowered_args@), count)
            &&& final(s)@ == (NewScopeV {
                locals: bound_locals(old(s)@.locals, ids@, old(b)@.next_reg, count),
                ..old(s)@
            })
        }),
        final(b)@.wf(),
{
    let mut saved: Vec<(u32, u64)> = Vec::new();
    let mut i: usize = 0;
    while i < s.locals.len()
        invariant
            i <= s.locals@.len(),
            s@ == old(s)@,
            saved@ == s.locals@.take(i as int),
        decreases s.locals@.len() - i,
    {
        saved.push(s.locals[i]);
        assert(saved@ =~= s.locals@.take(i + 1));
        i = i + 1;
    }
    assert(s.locals@.take(s.locals@.len() as int) =~= s.locals@);
    let ghost r = b@.next_reg;
    let slots = bind_ctor_params(b, ids.len(), lowered_args, pad);
    let ghost base = s.locals@;
    let mut k: usize = 0;
    while k < slots.len()
        invariant
            k <= slots@.len(),
            slots@.len() <= ids@.len(),
            slots@ == Seq::new(slots@.len(), |j: int| (r + j) as u64),
            s.this_stack@ == old(s)@.this_stack,
            s.class_stack@ == old(s).class_stack@,
            s.locals@ == bound_locals(base, ids@, r, k as nat),
        decreases slots@.len() - k,
    {
        s.locals.push((ids[k], slots[k]));
        assert(s.locals@ =~= bound_locals(base, ids@, r, (k + 1) as nat));
        k = k + 1;
    }
    saved
}

/// Restores the enclosing function's locals after the constructor body.
pub fn restore_locals(s: &mut NewScope, saved: Vec<(u32, u64)>)
    ensures
        final(s)@ == (NewScopeV { locals: saved@, ..old(s)@ }),
{
    s.locals = saved;
}

} // verus!
