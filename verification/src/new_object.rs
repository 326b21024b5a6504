//! The first steps of `new C(args)`: a built-in class the runtime
//! constructs (unless a user class of that name shadows it), a local alias
//! of a class (`let C = SomeClass; new C()`) resolved to the class, and the
//! empty placeholder object of a class this compilation does not know.

use vstd::prelude::*;

use crate::builtin_new::{arm_mismatches_source_spec, builtin_ctor_result, builtin_ctor_spec, lower_builtin_new};
use crate::class_layout::{find_class, find_class_exec, ClassInfo};
use crate::ir::{args_view, insts_view, operands_view, FnBuilder, FnBuilderV, Inst, InstV, Operand, OperandV, Ty};
use crate::namespace_call::lookup_pair;
use crate::text::{opt_view, str_eq};

verus! {

/// What `new class_name(args)` lowers to from `pre`, when `class_name` is
/// a built-in class constructed by a plain runtime call.
pub open spec fn builtin_new_spec(
    pre: FnBuilderV,
    class_name: Seq<char>,
    import_src: Option<Seq<char>>,
    vals: Seq<OperandV>,
) -> Option<(FnBuilderV, OperandV)> {
    if arm_mismatches_source_spec(class_name, import_src) {
        None
    } else {
        match builtin_ctor_spec(class_name, vals.len()) {
            None => None,
            Some(c) => Some(builtin_ctor_result(pre, c, vals)),
        }
    }
}

/// The class `new class_name()` instantiates: an unknown name bound by a
/// local alias resolves to the aliased class.
pub open spec fn resolved_class_name(classes: Seq<ClassInfo>, aliases: Seq<(String, String)>, name: Seq<char>) -> Seq<char> {
    if find_class(classes, name) is None {
        match lookup_pair(aliases, name) {
            Some(r) => r,
            None => name,
        }
    } else {
        name
    }
}

/// The outcome of the first steps of `new C(args)`.
#[derive(Debug)]
pub enum NewOutcome {
    /// A built-in class, constructed; the new value.
    Builtin(Operand),
    /// A class unknown here: an empty object was allocated; the new value.
    Placeholder(Operand),
    /// The index of the user class to instantiate.
    Class(usize),
}

/// The empty placeholder object from `pre`: `js_object_alloc(0, 0)` into
/// `r` and its NaN-boxing into `r + 1`.
pub open spec fn placeholder_result(pre: FnBuilderV) -> FnBuilderV {
    let r = pre.next_reg;
    (FnBuilderV { next_reg: r + 2, ..pre }).append_cur(
        seq![
            InstV::Call {
                dest: Some(r as u64),
                ret: Ty::I64,
                callee: "js_object_alloc"@,
                args: seq![(Ty::I32, OperandV::Int(0)), (Ty::I32, OperandV::Int(0))],
            },
            InstV::NanboxPointer { dest: (r + 1) as u64, val: OperandV::Reg(r as u64) },
        ],
    )
}

fn lookup_alias(aliases: &Vec<(String, String)>, name: &str) -> (res: Option<String>)
    ensures
        match res {
            Some(v) => lookup_pair(aliases@, name@) == Some(v@),
            None => lookup_pair(aliases@, name@) is None,
        },
{
    let mut k: usize = 0;
    assert(aliases@.skip(0) =~= aliases@);
    while k < aliases.len()
        invariant
            k <= aliases@.len(),
            lookup_pair(aliases@, name@) == lookup_pair(aliases@.skip(k as int), name@),
        decreases aliases@.len() - k,
    {
        assert(aliases@.skip(k as int).drop_first() =~= aliases@.skip(k + 1));
        if str_eq(aliases[k].0.as_str(), name) {
            return Some(aliases[k].1.clone());
        }
        k = k + 1;
    }
    None
}

/// The first steps of `new class_name(args)`: when no user class is named
/// `class_name` and it is a built-in class constructed by a plain runtime
/// call (`import_src` being the package it was imported from, if any),
/// that construction; otherwise the class the name resolves to through
/// the local aliases (`(alias, class)` pairs), or, when it names no user
/// class, an empty placeholder object. `lowered_args` are the lowered
/// arguments.
pub fn lower_new_prelude(
    b: &mut FnBuilder,
    classes: &Vec<ClassInfo>,
    aliases: &Vec<(String, String)>,
    class_name: &str,
    import_src: Option<&str>,
    lowered_args: &Vec<Operand>,
) -> (res: NewOutcome)
    requires
        old(b)@.wf(),
        old(b)@.next_reg + 4 <= u64::MAX,
    ensures
        final(b)@.wf(),
        ({
            let vals = operands_view(lowered_args@);
            let builtin = builtin_new_spec(old(b)@, class_name@, opt_view(import_src), vals);
            if find_class(classes@, class_name@) is None && builtin is Some {
                let (post, result) = builtin->0;
                res matches NewOutcome::Builtin(o) && o@ == result && final(b)@ == post
            } else {
                match find_class(classes@, resolved_class_name(classes@, aliases@, class_name@)) {
                    Some(i) => res == NewOutcome::Class(i as usize) && final(b)@ == old(b)@,
                    None => (res matches NewOutcome::Placeholder(o) && o@ == OperandV::Reg(
                        (old(b)@.next_reg + 1) as u64,
                    )) && final(b)@ == placeholder_result(old(b)@),
                }
            }
        }),
{
    let own = find_class_exec(classes, class_name);
    if own.is_none() {
        if let Some(v) = lower_builtin_new(b, class_name, import_src, lowered_args) {
            return NewOutcome::Builtin(v);
        }
    }
    let target = match own {
        Some(i) => Some(i),
        None => match lookup_alias(aliases, class_name) {
            Some(r) => find_class_exec(classes, r.as_str()),
            None => None,
        },
    };
    match target {
        Some(i) => NewOutcome::Class(i),
        None => {
            let r = b.peek_reg();
            b.reserve_regs(2);
            let args = vec![(Ty::I32, Operand::Int(0)), (Ty::I32, Operand::Int(0))];
            assert(args_view(args@) =~= seq![(Ty::I32, OperandV::Int(0)), (Ty::I32, OperandV::Int(0))]);
            let insts = vec![
                Inst::Call { dest: Some(r), ret: Ty::I64, callee: String::from_str("js_object_alloc"), args },
                Inst::NanboxPointer { dest: r + 1, val: Operand::Reg(r) },
            ];
            assert(insts_view(insts@) =~= seq![
                InstV::Call {
                    dest: Some(r),
                    ret: Ty::I64,
                    callee: "js_object_alloc"@,
                    args: seq![(Ty::I32, OperandV::Int(0)), (Ty::I32, OperandV::Int(0))],
                },
                InstV::NanboxPointer { dest: (r + 1) as u64, val: OperandV::Reg(r) },
            ]);
            b.push_all(insts);
            NewOutcome::Placeholder(Operand::Reg(r + 1))
        },
    }
}

} // verus!
