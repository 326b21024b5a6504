use perry_lower_call::ir::{FnBuilder, Inst, Operand, Ty};
use perry_lower_call::ui_table::{
    finish_styled_widget, lower_perry_ui_table_call, perry_plugin_instance_method_lookup, perry_plugin_table_lookup,
    UiArgKind, UiOutcome, UiReturnKind, UiSig,
};

fn ext(s: &str) -> Operand {
    Operand::Ext(s.to_string())
}

#[test]
fn plugin_host_rows() {
    let load = perry_plugin_table_lookup("loadPlugin").expect("loadPlugin");
    assert_eq!(load.runtime, "perry_plugin_load");
    assert_eq!(load.args, vec![UiArgKind::F64]);
    assert_eq!(load.ret, UiReturnKind::Widget);
    let count = perry_plugin_table_lookup("pluginCount").expect("pluginCount");
    assert_eq!(count.ret, UiReturnKind::I64AsF64);
    assert!(perry_plugin_table_lookup("registerHook").is_none());
}

#[test]
fn plugin_instance_rows() {
    let ex = perry_plugin_instance_method_lookup("registerHookEx").expect("registerHookEx");
    assert_eq!(ex.runtime, "perry_plugin_register_hook_ex");
    assert_eq!(ex.args, vec![UiArgKind::F64, UiArgKind::Closure, UiArgKind::I64Raw, UiArgKind::I64Raw]);
    let log = perry_plugin_instance_method_lookup("log").expect("log");
    assert_eq!(log.args, vec![UiArgKind::I64Raw, UiArgKind::F64]);
    assert!(perry_plugin_instance_method_lookup("loadPlugin").is_none());
}

#[test]
fn table_call_coerces_each_argument_kind() {
    let sig = UiSig {
        method: "demo",
        runtime: "perry_demo",
        args: vec![UiArgKind::Widget, UiArgKind::Str, UiArgKind::F64, UiArgKind::I64Raw],
        ret: UiReturnKind::F64,
    };
    let mut b = FnBuilder::new();
    let res = lower_perry_ui_table_call(&mut b, &sig, &vec![ext("%w"), ext("%s"), ext("%f"), ext("%i")]);
    assert!(matches!(res, UiOutcome::Value(Operand::Reg(3))));
    let is = &b.blocks[0].insts;
    assert_eq!(is.len(), 4);
    assert!(matches!(&is[0], Inst::UnboxToI64 { dest: 0, .. }));
    assert!(matches!(&is[1], Inst::Call { dest: Some(1), callee, .. } if callee == "js_get_string_pointer_unified"));
    assert!(matches!(&is[2], Inst::Fptosi { dest: 2, to: Ty::I64, .. }));
    match &is[3] {
        Inst::Call { dest, ret, callee, args } => {
            assert_eq!(*dest, Some(3));
            assert_eq!(*ret, Ty::Double);
            assert_eq!(callee, "perry_demo");
            assert!(matches!(args[0], (Ty::I64, Operand::Reg(0))));
            assert!(matches!(args[1], (Ty::I64, Operand::Reg(1))));
            assert!(matches!(&args[2], (Ty::Double, Operand::Ext(x)) if x == "%f"));
            assert!(matches!(args[3], (Ty::I64, Operand::Reg(2))));
        },
        other => panic!("unexpected {:?}", other),
    }
    assert_eq!(b.declares[0].params, vec![Ty::I64, Ty::I64, Ty::Double, Ty::I64]);
    assert_eq!(b.declares[0].ret, Ty::Double);
}

#[test]
fn table_call_with_wrong_arity_emits_nothing() {
    let sig = UiSig { method: "Text", runtime: "perry_ui_text_create", args: vec![UiArgKind::Str], ret: UiReturnKind::Widget };
    let mut b = FnBuilder::new();
    let res = lower_perry_ui_table_call(&mut b, &sig, &vec![]);
    assert!(matches!(res, UiOutcome::Value(Operand::Zero)));
    assert!(b.blocks[0].insts.is_empty());
    assert!(b.declares.is_empty());
}

#[test]
fn widget_with_trailing_style_is_boxed_after_styling() {
    let sig = UiSig { method: "Text", runtime: "perry_ui_text_create", args: vec![UiArgKind::Str], ret: UiReturnKind::Widget };
    let mut b = FnBuilder::new();
    let res = lower_perry_ui_table_call(&mut b, &sig, &vec![ext("%s"), ext("%style")]);
    let handle = match res {
        UiOutcome::StyledWidget { handle } => handle,
        other => panic!("unexpected {:?}", other),
    };
    assert_eq!(handle, 1);
    let boxed = finish_styled_widget(&mut b, handle);
    assert!(matches!(boxed, Operand::Reg(2)));
    assert!(matches!(b.blocks[0].insts.last().unwrap(), Inst::NanboxPointer { dest: 2, val: Operand::Reg(1) }));
}

#[test]
fn widget_without_style_is_boxed_at_once() {
    let sig = UiSig { method: "Spacer", runtime: "perry_ui_spacer_create", args: vec![], ret: UiReturnKind::Widget };
    let mut b = FnBuilder::new();
    let res = lower_perry_ui_table_call(&mut b, &sig, &vec![]);
    assert!(matches!(res, UiOutcome::Value(Operand::Reg(1))));
    assert!(matches!(&b.blocks[0].insts[1], Inst::NanboxPointer { dest: 1, val: Operand::Reg(0) }));
}

#[test]
fn app_set_timer_two_argument_form_gets_a_zero_app_handle() {
    let sig = UiSig {
        method: "appSetTimer",
        runtime: "perry_ui_app_set_timer",
        args: vec![UiArgKind::Widget, UiArgKind::F64, UiArgKind::Closure],
        ret: UiReturnKind::Void,
    };
    let mut b = FnBuilder::new();
    let res = lower_perry_ui_table_call(&mut b, &sig, &vec![ext("%ms"), ext("%cb")]);
    assert!(matches!(res, UiOutcome::Value(Operand::Zero)));
    let is = &b.blocks[0].insts;
    assert!(matches!(&is[0], Inst::UnboxToI64 { dest: 0, val: Operand::Zero }));
    match &is[1] {
        Inst::Call { dest, ret, args, .. } => {
            assert_eq!(*dest, None);
            assert_eq!(*ret, Ty::Void);
            assert_eq!(args.len(), 3);
            assert!(matches!(&args[1], (Ty::Double, Operand::Ext(x)) if x == "%ms"));
        },
        other => panic!("unexpected {:?}", other),
    }
}

#[test]
fn i64_result_is_converted_to_double() {
    let count = perry_plugin_table_lookup("pluginCount").unwrap();
    let mut b = FnBuilder::new();
    let res = lower_perry_ui_table_call(&mut b, &count, &vec![]);
    assert!(matches!(res, UiOutcome::Value(Operand::Reg(1))));
    assert!(matches!(&b.blocks[0].insts[1], Inst::Sitofp { dest: 1, from: Ty::I64, val: Operand::Reg(0) }));
}
