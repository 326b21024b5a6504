use perry_lower_call::class_layout::ClassInfo;
use perry_lower_call::class_method::{class_method_plan, lower_class_method_call, ClassMethodPlan};
use perry_lower_call::ir::{FnBuilder, Inst, Operand};

fn class(name: &str, extends: Option<&str>) -> ClassInfo {
    ClassInfo { name: name.to_string(), fields: vec![], extends: extends.map(|e| e.to_string()), has_ctor: false }
}

fn m(c: &str, p: &str, f: &str) -> (String, String, String) {
    (c.to_string(), p.to_string(), f.to_string())
}

fn block_dump(b: &FnBuilder, i: usize) -> (String, Vec<String>) {
    (b.blocks[i].name.clone(), b.blocks[i].insts.iter().map(|x| format!("{:?}", x)).collect())
}

fn recv() -> Operand {
    Operand::Ext("%o".to_string())
}

#[test]
fn method_without_overrides_is_probed_then_called_directly() {
    let classes = vec![class("A", None)];
    let ids = vec![("A".to_string(), 1u32)];
    let methods = vec![m("A", "area", "perry_method_A_area")];
    let sigs = vec![("A".to_string(), "area".to_string(), 1usize, false)];
    let mut b = FnBuilder::new();
    let res = lower_class_method_call(&mut b, &classes, &ids, &methods, &sigs, Some("A"), false, "area", recv(), &vec![]);
    assert!(res.is_some());
    assert_eq!(b.strings, vec!["area".to_string()]);
    let (_, entry) = block_dump(&b, 0);
    assert!(entry[0].contains("js_object_get_own_field_or_undef"));
    let (name, stat) = block_dump(&b, 2);
    assert_eq!(name, "ovrcheck.static");
    // The one declared parameter the caller did not pass is `undefined`.
    assert!(stat[0].contains("callee: \"perry_method_A_area\", args: [(Double, Ext(\"%o\")), (Double, Tag(Undefined))]"));
    let (_, merge) = block_dump(&b, 3);
    assert!(merge[0].starts_with("Phi"));
}

#[test]
fn overridden_method_switches_on_the_class_id() {
    let classes = vec![class("A", None), class("B", Some("A"))];
    let ids = vec![("A".to_string(), 1u32), ("B".to_string(), 2u32)];
    let methods = vec![m("A", "area", "fA"), m("B", "area", "fB")];
    let mut b = FnBuilder::new();
    let res = lower_class_method_call(&mut b, &classes, &ids, &methods, &vec![], Some("A"), false, "area", recv(), &vec![]);
    assert!(matches!(res, Some(Operand::Reg(5))));
    assert_eq!(
        block_dump(&b, 0).1,
        vec![
            "UnboxToI64 { dest: 0, val: Ext(\"%o\") }",
            "Call { dest: Some(1), ret: I32, callee: \"js_object_get_class_id\", args: [(I64, Reg(0))] }",
            "IntEq { dest: 2, ty: I32, lhs: Reg(1), rhs: Int(2) }",
            "CondBr { cond: Reg(2), if_true: 1, if_false: 2 }",
        ]
    );
    assert_eq!(
        block_dump(&b, 1),
        (
            "vdispatch.case0".to_string(),
            vec![
                "Call { dest: Some(3), ret: Double, callee: \"fB\", args: [(Double, Ext(\"%o\"))] }".to_string(),
                "Br { target: 3 }".to_string(),
            ]
        )
    );
    assert_eq!(
        block_dump(&b, 2),
        (
            "vdispatch.default".to_string(),
            vec![
                "Call { dest: Some(4), ret: Double, callee: \"fA\", args: [(Double, Ext(\"%o\"))] }".to_string(),
                "Br { target: 3 }".to_string(),
            ]
        )
    );
    assert_eq!(
        block_dump(&b, 3),
        ("vdispatch.merge".to_string(), vec!["Phi { dest: 5, ty: Double, incoming: [(Reg(3), 1), (Reg(4), 2)] }".to_string()])
    );
    assert_eq!(b.current, 3);
}

#[test]
fn unknown_receiver_goes_through_the_dynamic_tower() {
    let classes = vec![class("A", None), class("B", Some("A"))];
    let ids = vec![("A".to_string(), 1u32), ("B".to_string(), 2u32)];
    let methods = vec![m("A", "area", "fA")];
    let plan = class_method_plan(&classes, &ids, &methods, &vec![], None, false, "area", 1).unwrap();
    match &plan {
        ClassMethodPlan::Dynamic { entries, .. } => {
            assert_eq!(entries, &vec![(1u32, "fA".to_string()), (2u32, "fA".to_string())]);
        },
        _ => panic!("expected the dynamic tower"),
    }
    let mut b = FnBuilder::new();
    let res = lower_class_method_call(
        &mut b,
        &classes,
        &ids,
        &methods,
        &vec![],
        None,
        false,
        "area",
        recv(),
        &vec![Operand::Ext("%x".to_string())],
    );
    assert!(res.is_some());
    let names: Vec<String> = b.blocks.iter().map(|x| x.name.clone()).collect();
    assert_eq!(
        names,
        vec![
            "entry",
            "idisp.override",
            "idisp.dispatch",
            "idisp.outer_merge",
            "idispatch.case0",
            "idispatch.case1",
            "idispatch.default",
            "idispatch.merge",
            "idispatch.test1",
        ]
    );
    let (_, dflt) = block_dump(&b, 6);
    assert!(dflt.iter().any(|s| s.contains("js_native_call_method")));
    assert!(matches!(b.blocks[7].insts.last(), Some(Inst::Br { target: 3 })));
    assert!(matches!(&b.blocks[3].insts[0], Inst::Phi { .. }));
}

#[test]
fn global_receiver_and_unknown_method_are_not_class_calls() {
    let classes = vec![class("A", None)];
    let ids = vec![("A".to_string(), 1u32)];
    let methods = vec![m("A", "log", "fA")];
    let mut b = FnBuilder::new();
    assert!(lower_class_method_call(&mut b, &classes, &ids, &methods, &vec![], None, true, "log", recv(), &vec![]).is_none());
    assert!(lower_class_method_call(&mut b, &classes, &ids, &methods, &vec![], Some("A"), false, "size", recv(), &vec![]).is_none());
    assert!(b.blocks[0].insts.is_empty());
}

#[test]
fn rest_parameter_bundles_the_trailing_arguments() {
    let classes = vec![class("Conn", None)];
    let ids = vec![("Conn".to_string(), 1u32)];
    let methods = vec![m("Conn", "command", "fCmd")];
    let sigs = vec![("Conn".to_string(), "command".to_string(), 2usize, true)];
    let mut b = FnBuilder::new();
    let args = vec![Operand::Ext("%a".to_string()), Operand::Ext("%b".to_string()), Operand::Ext("%c".to_string())];
    let res = lower_class_method_call(&mut b, &classes, &ids, &methods, &sigs, Some("Conn"), false, "command", recv(), &args);
    assert!(res.is_some());
    let (_, entry) = block_dump(&b, 0);
    assert!(entry[0].contains("js_array_alloc"));
    assert!(entry.iter().filter(|s| s.contains("js_array_push_f64")).count() == 2);
    let (_, stat) = block_dump(&b, 2);
    match &b.blocks[2].insts[0] {
        Inst::Call { callee, args, .. } => {
            assert_eq!(callee, "fCmd");
            assert_eq!(args.len(), 3);
        },
        other => panic!("unexpected {:?} in {:?}", other, stat),
    }
}
