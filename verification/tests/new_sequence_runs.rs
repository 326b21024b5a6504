use perry_lower_call::class_layout::{ClassInfo, FieldInfo};
use perry_lower_call::ir::{FnBuilder, Inst, Operand};
use perry_lower_call::new_scope::NewScope;
use perry_lower_call::new_sequence::{new_sequence, run_new_op, NewOp, NewOpOutcome};

fn class(name: &str, extends: Option<&str>, has_ctor: bool) -> ClassInfo {
    ClassInfo {
        name: name.to_string(),
        fields: vec![FieldInfo { name: format!("{}_f", name), computed: false }],
        extends: extends.map(|e| e.to_string()),
        has_ctor,
    }
}

fn shown(ops: &[NewOp]) -> Vec<String> {
    ops.iter().map(|o| format!("{:?}", o)).collect()
}

fn run_all(ops: &[NewOp], s: &mut NewScope, b: &mut FnBuilder, args: &Vec<Operand>) -> usize {
    let mut saved = None;
    let obj = Operand::Ext("%obj".to_string());
    let mut caller = 0;
    for op in ops {
        if run_new_op(s, &mut saved, b, op, &obj, &vec![5, 6], args) == NewOpOutcome::Caller {
            caller += 1;
        }
    }
    assert!(saved.is_none());
    caller
}

#[test]
fn inherited_constructor_sequence_and_balance() {
    let classes = vec![class("A", None, true), class("B", Some("A"), false), class("C", Some("B"), false)];
    let ops = new_sequence(&classes, &vec![], 2);
    assert_eq!(
        shown(&ops),
        vec![
            "EnterNew(\"C\")",
            "ApplyFields(UpToInclusive(\"A\"))",
            "BindParams { class: 0, pad: true }",
            "SwitchClass(\"A\")",
            "LowerBody(0)",
            "SwitchClass(\"C\")",
            "RestoreLocals",
            "ApplyFields(BetweenExclusiveTo(\"A\"))",
            "LeaveNew",
        ]
    );
    let mut s = NewScope { this_stack: vec![7], class_stack: vec!["Outer".to_string()], locals: vec![(1, 99)] };
    let mut b = FnBuilder::new();
    let callers = run_all(&ops, &mut s, &mut b, &vec![Operand::Ext("%a".to_string())]);
    assert_eq!(callers, 3);
    assert_eq!(s.this_stack, vec![7]);
    assert_eq!(s.class_stack, vec!["Outer".to_string()]);
    assert_eq!(s.locals, vec![(1, 99)]);
    let insts: Vec<String> = b.blocks[0].insts.iter().map(|i| format!("{:?}", i)).collect();
    assert_eq!(
        insts,
        vec![
            "Store { ty: Double, val: Ext(\"%obj\"), ptr: Reg(0) }",
            "Store { ty: Double, val: Ext(\"%a\"), ptr: Reg(1) }",
            "Store { ty: Double, val: Tag(Undefined), ptr: Reg(2) }",
        ]
    );
}

#[test]
fn own_constructor_sequence_binds_before_the_initializers() {
    let classes = vec![class("A", None, true)];
    let ops = new_sequence(&classes, &vec![], 0);
    assert_eq!(
        shown(&ops),
        vec![
            "EnterNew(\"A\")",
            "BindParams { class: 0, pad: false }",
            "ApplyFields(AncestorsOnly)",
            "ApplyFields(SelfOnly)",
            "LowerBody(0)",
            "RestoreLocals",
            "LeaveNew",
        ]
    );
    let mut s = NewScope { this_stack: vec![], class_stack: vec![], locals: vec![] };
    let mut b = FnBuilder::new();
    assert_eq!(run_all(&ops, &mut s, &mut b, &vec![Operand::Ext("%a".to_string())]), 3);
    assert!(s.this_stack.is_empty() && s.class_stack.is_empty() && s.locals.is_empty());
    // Only the passed argument is bound without padding.
    assert_eq!(b.blocks[0].insts.len(), 2);
}

#[test]
fn error_subclass_sequence_initializes_message_and_name() {
    let classes = vec![class("MyError", Some("Error"), false)];
    let ops = new_sequence(&classes, &vec![], 0);
    assert_eq!(
        shown(&ops),
        vec![
            "EnterNew(\"MyError\")",
            "ApplyFields(AncestorsOnly)",
            "ErrorInit(\"Error\")",
            "ApplyFields(SelfOnly)",
            "LeaveNew",
        ]
    );
    let mut s = NewScope { this_stack: vec![], class_stack: vec![], locals: vec![] };
    let mut b = FnBuilder::new();
    assert_eq!(run_all(&ops, &mut s, &mut b, &vec![Operand::Ext("%m".to_string())]), 2);
    assert!(s.this_stack.is_empty());
    assert!(matches!(&b.blocks[0].insts[1], Inst::Load { ptr: Operand::Reg(0), .. }));
    assert_eq!(b.strings, vec!["message".to_string(), "name".to_string(), "Error".to_string()]);
}

#[test]
fn imported_constructor_sequence_calls_it_and_skips_the_late_initializers() {
    let classes = vec![class("Pg", Some("Col"), false)];
    let ctors = vec![("Pg".to_string(), "perry_ctor_Pg".to_string(), 2usize)];
    let ops = new_sequence(&classes, &ctors, 0);
    assert_eq!(
        shown(&ops),
        vec!["EnterNew(\"Pg\")", "ApplyFields(AncestorsOnly)", "ImportedCall(\"perry_ctor_Pg\", 2)", "LeaveNew"]
    );
}
