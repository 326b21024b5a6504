use perry_lower_call::field_emit::{emit_arrow_field_init, field_writes, FieldInitInfo, FieldWrite};
use perry_lower_call::hir::Expr;
use perry_lower_call::ir::{FnBuilder, Inst, Operand};
use perry_lower_call::new_scope::{bind_ctor_scope, enter_new, leave_new, restore_locals, switch_class, NewScope};
use perry_lower_call::options_literal::extract_options_fields;

fn dbg_all(is: &[Inst]) -> Vec<String> {
    is.iter().map(|i| format!("{:?}", i)).collect()
}

fn field(name: &str, computed: bool, has_init: bool, arrow: Option<u32>) -> FieldInitInfo {
    FieldInitInfo { name: name.to_string(), computed, has_init, arrow_this_slot: arrow }
}

#[test]
fn new_scope_enter_bind_and_leave_restore_the_enclosing_scope() {
    let mut s = NewScope { this_stack: vec![9], class_stack: vec!["Outer".to_string()], locals: vec![(1, 5)] };
    let mut b = FnBuilder::new();
    let slot = enter_new(&mut s, &mut b, Operand::Ext("%obj".to_string()), "C");
    assert_eq!(slot, 0);
    assert_eq!(s.this_stack, vec![9, 0]);
    assert_eq!(s.class_stack, vec!["Outer".to_string(), "C".to_string()]);

    switch_class(&mut s, "B");
    assert_eq!(s.class_stack, vec!["Outer".to_string(), "B".to_string()]);

    let saved = bind_ctor_scope(&mut s, &mut b, &vec![7, 8], &vec![Operand::Ext("%a".to_string())], true);
    assert_eq!(saved, vec![(1, 5)]);
    assert_eq!(s.locals, vec![(1, 5), (7, 1), (8, 2)]);

    restore_locals(&mut s, saved);
    switch_class(&mut s, "C");
    leave_new(&mut s);
    assert_eq!(s.this_stack, vec![9]);
    assert_eq!(s.class_stack, vec!["Outer".to_string()]);
    assert_eq!(s.locals, vec![(1, 5)]);
}

#[test]
fn bind_ctor_scope_without_padding_binds_only_passed_arguments() {
    let mut s = NewScope { this_stack: vec![], class_stack: vec![], locals: vec![] };
    let mut b = FnBuilder::new();
    let saved = bind_ctor_scope(&mut s, &mut b, &vec![3, 4, 5], &vec![Operand::Ext("%a".to_string())], false);
    assert!(saved.is_empty());
    assert_eq!(s.locals, vec![(3, 0)]);
}

#[test]
fn field_writes_put_string_keys_first_and_undefined_for_missing_inits() {
    let fs = vec![
        field("a", false, true, None),
        field("", true, true, None),
        field("b", false, false, None),
        field("cb", false, true, Some(2)),
        field("", true, false, None),
    ];
    let ws = field_writes(&fs);
    let shown: Vec<String> = ws.iter().map(|w| format!("{:?}", w)).collect();
    assert_eq!(
        shown,
        vec![
            "Named { name: \"a\", undefined: false }",
            "Named { name: \"b\", undefined: true }",
            "Arrow { name: \"cb\", this_slot: 2 }",
            "Computed { undefined: false }",
            "Computed { undefined: true }",
        ]
    );
    assert!(matches!(ws[2], FieldWrite::Arrow { this_slot: 2, .. }));
}

#[test]
fn arrow_field_patches_this_into_the_closure_before_the_store() {
    let mut b = FnBuilder::new();
    emit_arrow_field_init(&mut b, Some(40), Operand::Ext("%cl".to_string()), 1, "onTick");
    assert_eq!(b.strings, vec!["onTick".to_string()]);
    assert_eq!(
        dbg_all(&b.blocks[0].insts),
        vec![
            "Load { dest: 0, ty: Double, ptr: Reg(40) }",
            "UnboxToI64 { dest: 1, val: Ext(\"%cl\") }",
            "Call { dest: None, ret: Void, callee: \"js_closure_set_capture_f64\", args: [(I64, Reg(1)), (I32, Int(1)), (Double, Reg(0))] }",
            "Load { dest: 2, ty: Double, ptr: StrHandle(0) }",
            "UnboxToI64 { dest: 3, val: Reg(2) }",
            "UnboxToI64 { dest: 4, val: Reg(0) }",
            "Call { dest: None, ret: Void, callee: \"js_object_set_field_by_name\", args: [(I64, Reg(4)), (I64, Reg(3)), (Double, Ext(\"%cl\"))] }",
        ]
    );
}

#[test]
fn options_of_an_object_literal_and_of_an_anonymous_shape() {
    let lit = Expr::Object(vec![("title".to_string(), Expr::Str("hi".to_string()))]);
    let fs = extract_options_fields(&lit, &vec![]).unwrap();
    assert_eq!(fs.len(), 1);
    assert_eq!(fs[0].0, "title");

    let shapes = vec![("__AnonShape_3".to_string(), vec!["body".to_string(), "delay".to_string()])];
    let anon = Expr::New {
        class_name: "__AnonShape_3".to_string(),
        args: vec![Expr::Str("x".to_string()), Expr::LocalGet(2)],
    };
    let fs = extract_options_fields(&anon, &shapes).unwrap();
    let keys: Vec<&str> = fs.iter().map(|(k, _)| k.as_str()).collect();
    assert_eq!(keys, vec!["body", "delay"]);
    assert!(matches!(fs[1].1, Expr::LocalGet(2)));

    let short = Expr::New { class_name: "__AnonShape_3".to_string(), args: vec![] };
    assert!(extract_options_fields(&short, &shapes).is_none());
    let named = Expr::New { class_name: "Opts".to_string(), args: vec![] };
    assert!(extract_options_fields(&named, &shapes).is_none());
}
