use perry_lower_call::class_layout::ClassInfo;
use perry_lower_call::hir::Expr;
use perry_lower_call::ir::{FnBuilder, Inst, Operand};
use perry_lower_call::static_dispatch::{
    resolve_static_dispatch_cls, try_lower_static_dispatch, ParamInfo, StaticMethodInfo, StaticTables,
};

fn ext(s: &str) -> Operand {
    Operand::Ext(s.to_string())
}

fn class(name: &str, extends: Option<&str>) -> ClassInfo {
    ClassInfo { name: name.to_string(), fields: vec![], extends: extends.map(|e| e.to_string()), has_ctor: false }
}

fn param(name: &str, is_rest: bool) -> ParamInfo {
    ParamInfo { name: name.to_string(), is_rest }
}

fn tables() -> StaticTables {
    StaticTables {
        classes: vec![class("A", None), class("B", Some("A"))],
        statics: vec![
            StaticMethodInfo { class: "A".to_string(), name: "make".to_string(), params: vec![param("x", false)] },
            StaticMethodInfo { class: "A".to_string(), name: "pipe".to_string(), params: vec![param("arguments", true)] },
            StaticMethodInfo {
                class: "B".to_string(),
                name: "of".to_string(),
                params: vec![param("first", false), param("rest", true)],
            },
        ],
        methods: vec![
            ("A".to_string(), "make".to_string(), "A__make".to_string()),
            ("A".to_string(), "pipe".to_string(), "A__pipe".to_string()),
            ("B".to_string(), "of".to_string(), "B__of".to_string()),
        ],
        local_names: vec![(5, "cls".to_string())],
        class_aliases: vec![("cls".to_string(), "B".to_string())],
        func_returns_class: vec![(9, "A".to_string())],
        class_ids: vec![("B".to_string(), 7)],
    }
}

fn dbg(is: &[Inst]) -> Vec<String> {
    is.iter().map(|i| format!("{:?}", i)).collect()
}

#[test]
fn class_literal_static_call_binds_this_around_direct_call() {
    let t = tables();
    let mut b = FnBuilder::new();
    let object = Expr::ClassRef("A".to_string());
    let res = try_lower_static_dispatch(&mut b, &t, &object, "make", ext("%A"), &vec![ext("%x")]);
    assert!(matches!(res, Some(Operand::Reg(1))));
    let is = dbg(&b.blocks[0].insts);
    assert_eq!(
        is,
        vec![
            "Call { dest: Some(0), ret: Double, callee: \"js_implicit_this_set\", args: [(Double, Ext(\"%A\"))] }",
            "Call { dest: Some(1), ret: Double, callee: \"A__make\", args: [(Double, Ext(\"%x\"))] }",
            "Call { dest: Some(2), ret: Double, callee: \"js_implicit_this_set\", args: [(Double, Reg(0))] }",
        ]
    );
    assert_eq!(b.next_reg, 3);
}

#[test]
fn aliased_local_finds_inherited_static_and_bundles_arguments() {
    let t = tables();
    let mut b = FnBuilder::new();
    let res = try_lower_static_dispatch(&mut b, &t, &Expr::LocalGet(5), "pipe", ext("%ignored"), &vec![ext("%f"), ext("%g")]);
    assert!(matches!(res, Some(Operand::Reg(5))));
    let is = dbg(&b.blocks[0].insts);
    assert_eq!(
        is,
        vec![
            "Call { dest: Some(0), ret: I64, callee: \"js_array_alloc\", args: [(I32, Int(2))] }",
            "Call { dest: Some(1), ret: I64, callee: \"js_array_push_f64\", args: [(I64, Reg(0)), (Double, Ext(\"%f\"))] }",
            "Call { dest: Some(2), ret: I64, callee: \"js_array_push_f64\", args: [(I64, Reg(1)), (Double, Ext(\"%g\"))] }",
            "NanboxPointer { dest: 3, val: Reg(2) }",
            "Call { dest: Some(4), ret: Double, callee: \"js_implicit_this_set\", args: [(Double, Int32Box(7))] }",
            "Call { dest: Some(5), ret: Double, callee: \"A__pipe\", args: [(Double, Reg(3))] }",
            "Call { dest: Some(6), ret: Double, callee: \"js_implicit_this_set\", args: [(Double, Reg(4))] }",
        ]
    );
}

#[test]
fn rest_parameter_takes_the_trailing_arguments() {
    let t = tables();
    let mut b = FnBuilder::new();
    let object = Expr::Sequence(vec![Expr::Other, Expr::ClassRef("B".to_string())]);
    let res = try_lower_static_dispatch(&mut b, &t, &object, "of", ext("%B"), &vec![ext("%1"), ext("%2"), ext("%3")]);
    assert!(matches!(res, Some(Operand::Reg(5))));
    let is = dbg(&b.blocks[0].insts);
    assert_eq!(is.len(), 7);
    assert_eq!(is[0], "Call { dest: Some(0), ret: I64, callee: \"js_array_alloc\", args: [(I32, Int(2))] }");
    assert_eq!(is[3], "NanboxPointer { dest: 3, val: Reg(2) }");
    assert_eq!(is[4], "Call { dest: Some(4), ret: Double, callee: \"js_implicit_this_set\", args: [(Double, Ext(\"%B\"))] }");
    assert_eq!(is[5], "Call { dest: Some(5), ret: Double, callee: \"B__of\", args: [(Double, Ext(\"%1\")), (Double, Reg(3))] }");
}

#[test]
fn class_literal_without_static_method_is_its_own_result() {
    let t = tables();
    let mut b = FnBuilder::new();
    let res = try_lower_static_dispatch(&mut b, &t, &Expr::ClassRef("B".to_string()), "missing", ext("%B"), &vec![]);
    assert!(matches!(res, Some(Operand::Ext(s)) if s == "%B"));
    assert!(b.blocks[0].insts.is_empty());
}

#[test]
fn local_class_without_static_method_falls_through() {
    let t = tables();
    let mut b = FnBuilder::new();
    let res = try_lower_static_dispatch(&mut b, &t, &Expr::LocalGet(5), "missing", ext("%c"), &vec![]);
    assert!(res.is_none());
    let res = try_lower_static_dispatch(&mut b, &t, &Expr::LocalGet(6), "make", ext("%c"), &vec![]);
    assert!(res.is_none());
    assert!(b.blocks[0].insts.is_empty());
}

#[test]
fn factory_call_and_sequence_receivers_resolve_their_class() {
    let t = tables();
    let call = Expr::Call { callee: Box::new(Expr::FuncRef(9)), args: vec![] };
    assert_eq!(resolve_static_dispatch_cls(&call, &t), Some("A".to_string()));
    let seq = Expr::Sequence(vec![Expr::ClassRef("A".to_string()), Expr::LocalGet(5)]);
    assert_eq!(resolve_static_dispatch_cls(&seq, &t), Some("B".to_string()));
    assert_eq!(resolve_static_dispatch_cls(&Expr::Sequence(vec![]), &t), None);
    assert_eq!(resolve_static_dispatch_cls(&Expr::Other, &t), None);
}
