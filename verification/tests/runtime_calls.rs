use std::collections::HashMap;

use perry_lower_call::hir::Expr;
use perry_lower_call::ir::{FnBuilder, Inst, JsTag, Operand, Ty};
use perry_lower_call::override_check::emit_own_method_override_check;
use perry_lower_call::promise::{lower_promise_chain_call, promise_chain_plan, try_lower_promise_static_call, PromiseChain};
use perry_lower_call::util_types::{lower_util_types_predicate_arg, util_types_predicate_plan, UtilTypesPlan};
use perry_lower_call::web_events::{
    abort_controller_call, is_abort_controller_expr, is_event_target_expr, lower_abort_controller_call,
    lower_event_target_call, AbortCall,
};

fn ext(s: &str) -> Operand {
    Operand::Ext(s.to_string())
}

fn dbg_all(is: &[Inst]) -> Vec<String> {
    is.iter().map(|i| format!("{:?}", i)).collect()
}

#[test]
fn event_target_add_listener_passes_type_pointer_and_listener_handle() {
    let mut b = FnBuilder::new();
    let res = lower_event_target_call(&mut b, Some("EventTarget"), "addEventListener", ext("%t"), &vec![ext("%ty"), ext("%fn")]);
    assert!(matches!(res, Some(Operand::Tag(JsTag::Undefined))));
    assert_eq!(
        dbg_all(&b.blocks[0].insts),
        vec![
            "UnboxToI64 { dest: 0, val: Ext(\"%t\") }",
            "Call { dest: Some(1), ret: I64, callee: \"js_get_string_pointer_unified\", args: [(Double, Ext(\"%ty\"))] }",
            "UnboxToI64 { dest: 2, val: Ext(\"%fn\") }",
            "Call { dest: None, ret: Void, callee: \"js_event_target_add_event_listener_with_options\", args: [(I64, Reg(0)), (I64, Reg(1)), (I64, Reg(2)), (Double, Tag(Undefined))] }",
        ]
    );
}

#[test]
fn event_target_dispatch_returns_runtime_result() {
    let mut b = FnBuilder::new();
    let res = lower_event_target_call(&mut b, Some("EventTarget"), "dispatchEvent", ext("%t"), &vec![]);
    assert!(matches!(res, Some(Operand::Reg(1))));
    assert_eq!(
        dbg_all(&b.blocks[0].insts)[1],
        "Call { dest: Some(1), ret: Double, callee: \"js_event_target_dispatch_event\", args: [(I64, Reg(0)), (Double, Tag(Undefined))] }"
    );
}

#[test]
fn non_event_target_or_short_listener_call_is_not_lowered() {
    let mut b = FnBuilder::new();
    assert!(lower_event_target_call(&mut b, Some("Emitter"), "dispatchEvent", ext("%t"), &vec![]).is_none());
    assert!(lower_event_target_call(&mut b, None, "dispatchEvent", ext("%t"), &vec![]).is_none());
    assert!(lower_event_target_call(&mut b, Some("EventTarget"), "removeEventListener", ext("%t"), &vec![ext("%a")]).is_none());
    assert!(b.blocks[0].insts.is_empty());
    assert!(is_event_target_expr(Some("EventTarget")));
    assert!(!is_event_target_expr(None));
}

#[test]
fn abort_controller_calls_are_classified_by_receiver() {
    let mut types = HashMap::new();
    types.insert(3u32, "AbortController".to_string());
    types.insert(4u32, "Other".to_string());
    let ctrl = Expr::LocalGet(3);
    assert!(is_abort_controller_expr(&ctrl, &types));
    assert!(!is_abort_controller_expr(&Expr::LocalGet(4), &types));
    assert!(is_abort_controller_expr(&Expr::New { class_name: "AbortController".to_string(), args: vec![] }, &types));
    assert_eq!(abort_controller_call(&ctrl, "abort", 0, &types), Some(AbortCall::Abort));
    let signal = Expr::PropertyGet { object: Box::new(Expr::LocalGet(3)), property: "signal".to_string() };
    assert_eq!(abort_controller_call(&signal, "addEventListener", 2, &types), Some(AbortCall::SignalAddListener));
    assert_eq!(abort_controller_call(&signal, "addEventListener", 1, &types), None);
    assert_eq!(abort_controller_call(&Expr::LocalGet(4), "abort", 0, &types), None);
}

#[test]
fn abort_with_and_without_reason() {
    let mut b = FnBuilder::new();
    let res = lower_abort_controller_call(&mut b, AbortCall::Abort, ext("%c"), &vec![]);
    assert!(matches!(res, Operand::Tag(JsTag::Undefined)));
    lower_abort_controller_call(&mut b, AbortCall::Abort, ext("%c"), &vec![ext("%why")]);
    assert_eq!(
        dbg_all(&b.blocks[0].insts),
        vec![
            "UnboxToI64 { dest: 0, val: Ext(\"%c\") }",
            "Call { dest: None, ret: Void, callee: \"js_abort_controller_abort\", args: [(I64, Reg(0))] }",
            "UnboxToI64 { dest: 1, val: Ext(\"%c\") }",
            "Call { dest: None, ret: Void, callee: \"js_abort_controller_abort_reason\", args: [(I64, Reg(1)), (Double, Ext(\"%why\"))] }",
        ]
    );
}

#[test]
fn signal_listener_goes_through_the_controllers_signal() {
    let mut b = FnBuilder::new();
    lower_abort_controller_call(&mut b, AbortCall::SignalAddListener, ext("%c"), &vec![ext("%ty"), ext("%fn")]);
    assert_eq!(
        dbg_all(&b.blocks[0].insts),
        vec![
            "UnboxToI64 { dest: 0, val: Ext(\"%c\") }",
            "Call { dest: Some(1), ret: I64, callee: \"js_abort_controller_signal\", args: [(I64, Reg(0))] }",
            "Call { dest: None, ret: Void, callee: \"js_abort_signal_add_listener\", args: [(I64, Reg(1)), (Double, Ext(\"%ty\")), (Double, Ext(\"%fn\"))] }",
        ]
    );
    assert_eq!(b.next_reg, 2);
}

#[test]
fn util_types_async_check_is_constant_when_known() {
    assert!(matches!(
        util_types_predicate_plan("util/types", false, false, "isAsyncFunction", Some(true)),
        Some(UtilTypesPlan::Constant(true))
    ));
    assert!(matches!(
        util_types_predicate_plan("util/types", false, false, "isAsyncFunction", None),
        Some(UtilTypesPlan::Runtime("js_util_types_is_async_function"))
    ));
    assert!(matches!(
        util_types_predicate_plan("util/types", false, false, "isDate", Some(false)),
        Some(UtilTypesPlan::Runtime("js_util_types_is_date"))
    ));
    assert!(util_types_predicate_plan("util", false, false, "isDate", None).is_none());
    assert!(util_types_predicate_plan("util/types", false, true, "isDate", None).is_none());
    assert!(util_types_predicate_plan("util/types", false, false, "isNothing", None).is_none());
}

#[test]
fn util_types_lowering_emits_one_runtime_call_or_a_literal() {
    let mut b = FnBuilder::new();
    let c = lower_util_types_predicate_arg(&mut b, UtilTypesPlan::Constant(false), Some(ext("%f")));
    assert!(matches!(c, Operand::Tag(JsTag::False)));
    assert!(b.blocks[0].insts.is_empty());
    let r = lower_util_types_predicate_arg(&mut b, UtilTypesPlan::Runtime("js_util_types_is_date"), None);
    assert!(matches!(r, Operand::Reg(0)));
    assert_eq!(
        dbg_all(&b.blocks[0].insts),
        vec!["Call { dest: Some(0), ret: Double, callee: \"js_util_types_is_date\", args: [(Double, Zero)] }"]
    );
}

#[test]
fn own_method_override_check_builds_probe_override_static_and_merge() {
    let mut b = FnBuilder::new();
    let res = emit_own_method_override_check(
        &mut b,
        &ext("%r"),
        "run",
        "C__run",
        vec![(Ty::Double, ext("%this")), (Ty::Double, ext("%a"))],
        &vec![ext("%this"), ext("%a")],
    );
    assert!(matches!(res, Operand::Reg(10)));
    assert_eq!(b.blocks.len(), 4);
    assert_eq!(b.current, 3);
    assert_eq!(b.strings, vec!["run".to_string()]);
    assert_eq!(
        dbg_all(&b.blocks[0].insts),
        vec![
            "Call { dest: Some(0), ret: Double, callee: \"js_object_get_own_field_or_undef\", args: [(Double, Ext(\"%r\")), (Ptr, StrBytes(0)), (I64, Int(3))] }",
            "BitcastDoubleToI64 { dest: 1, val: Reg(0) }",
            "IntEq { dest: 2, ty: I64, lhs: Reg(1), rhs: Tag(Undefined) }",
            "CondBr { cond: Reg(2), if_true: 2, if_false: 1 }",
        ]
    );
    assert_eq!(dbg_all(&b.allocas), vec!["Alloca { dest: 3, elem: Double, count: 1 }"]);
    assert_eq!(
        dbg_all(&b.blocks[1].insts),
        vec![
            "Gep { dest: 4, elem: Double, base: Reg(3), index: 0 }",
            "Store { ty: Double, val: Ext(\"%a\"), ptr: Reg(4) }",
            "ArrayBase { dest: 5, len: 1, base: Reg(3) }",
            "Call { dest: Some(6), ret: Double, callee: \"js_implicit_this_set\", args: [(Double, Ext(\"%this\"))] }",
            "Call { dest: Some(7), ret: Double, callee: \"js_native_call_value\", args: [(Double, Reg(0)), (Ptr, Reg(5)), (I64, Int(1))] }",
            "Call { dest: Some(8), ret: Double, callee: \"js_implicit_this_set\", args: [(Double, Reg(6))] }",
            "Br { target: 3 }",
        ]
    );
    assert_eq!(
        dbg_all(&b.blocks[2].insts),
        vec![
            "Call { dest: Some(9), ret: Double, callee: \"C__run\", args: [(Double, Ext(\"%this\")), (Double, Ext(\"%a\"))] }",
            "Br { target: 3 }",
        ]
    );
    assert_eq!(
        dbg_all(&b.blocks[3].insts),
        vec!["Phi { dest: 10, ty: Double, incoming: [(Reg(7), 1), (Reg(9), 2)] }"]
    );
}

#[test]
fn override_check_without_user_arguments_passes_null_buffer() {
    let mut b = FnBuilder::new();
    let res = emit_own_method_override_check(&mut b, &ext("%r"), "go", "C__go", vec![], &vec![]);
    assert!(matches!(res, Operand::Reg(7)));
    assert!(b.allocas.is_empty());
    assert_eq!(
        dbg_all(&b.blocks[1].insts)[0],
        "Call { dest: Some(3), ret: Double, callee: \"js_implicit_this_set\", args: [(Double, Tag(Undefined))] }"
    );
    assert_eq!(
        dbg_all(&b.blocks[1].insts)[1],
        "Call { dest: Some(4), ret: Double, callee: \"js_native_call_value\", args: [(Double, Reg(0)), (Ptr, Null), (I64, Int(0))] }"
    );
}

fn prop_of_global(p: &str) -> Expr {
    Expr::PropertyGet { object: Box::new(Expr::GlobalGet(0)), property: p.to_string() }
}

#[test]
fn promise_chain_plan_classifies_then_catch_finally() {
    assert_eq!(promise_chain_plan(&Expr::Other, "then", 1, true, false), Some(PromiseChain::Then));
    assert_eq!(promise_chain_plan(&Expr::Other, "catch", 1, true, false), Some(PromiseChain::Catch));
    assert_eq!(promise_chain_plan(&Expr::Other, "finally", 1, true, false), Some(PromiseChain::Finally));
    assert_eq!(promise_chain_plan(&Expr::Other, "then", 0, true, false), None);
    assert_eq!(promise_chain_plan(&Expr::Other, "then", 1, false, false), None);
    let resolved = Expr::Call { callee: Box::new(prop_of_global("resolve")), args: vec![] };
    assert_eq!(promise_chain_plan(&resolved, "then", 2, true, true), Some(PromiseChain::ResolvedThen));
    assert_eq!(promise_chain_plan(&resolved, "then", 2, true, false), Some(PromiseChain::Then));
}

#[test]
fn then_with_one_handler_passes_null_rejection() {
    let mut b = FnBuilder::new();
    let res = lower_promise_chain_call(&mut b, PromiseChain::Then, ext("%p"), &vec![ext("%f")]);
    assert!(matches!(res, Operand::Reg(3)));
    assert_eq!(
        dbg_all(&b.blocks[0].insts),
        vec![
            "UnboxToI64 { dest: 0, val: Ext(\"%p\") }",
            "UnboxToI64 { dest: 1, val: Ext(\"%f\") }",
            "Call { dest: Some(2), ret: I64, callee: \"js_promise_then\", args: [(I64, Reg(0)), (I64, Reg(1)), (I64, Int(0))] }",
            "NanboxPointer { dest: 3, val: Reg(2) }",
        ]
    );
}

#[test]
fn catch_is_then_without_fulfilment_handler() {
    let mut b = FnBuilder::new();
    lower_promise_chain_call(&mut b, PromiseChain::Catch, ext("%p"), &vec![ext("%r")]);
    assert_eq!(
        dbg_all(&b.blocks[0].insts)[2],
        "Call { dest: Some(2), ret: I64, callee: \"js_promise_then\", args: [(I64, Reg(0)), (I64, Int(0)), (I64, Reg(1))] }"
    );
}

#[test]
fn resolved_then_is_fused() {
    let mut b = FnBuilder::new();
    let res = lower_promise_chain_call(&mut b, PromiseChain::ResolvedThen, ext("%v"), &vec![ext("%f"), ext("%g")]);
    assert!(matches!(res, Operand::Reg(3)));
    assert_eq!(
        dbg_all(&b.blocks[0].insts)[2],
        "Call { dest: Some(2), ret: I64, callee: \"js_promise_resolved_then\", args: [(Double, Ext(\"%v\")), (I64, Reg(0)), (I64, Reg(1))] }"
    );
}

#[test]
fn promise_all_and_try_statics() {
    let mut b = FnBuilder::new();
    let res = try_lower_promise_static_call(&mut b, &prop_of_global("all"), Some("Promise"), &vec![ext("%it")]);
    assert!(matches!(res, Some(Operand::Reg(1))));
    assert_eq!(
        dbg_all(&b.blocks[0].insts),
        vec![
            "Call { dest: Some(0), ret: I64, callee: \"js_promise_all_iterable\", args: [(Double, Ext(\"%it\"))] }",
            "NanboxPointer { dest: 1, val: Reg(0) }",
        ]
    );
    let mut b = FnBuilder::new();
    let res = try_lower_promise_static_call(&mut b, &prop_of_global("try"), Some("Promise"), &vec![ext("%f"), ext("%a"), ext("%b")]);
    assert!(matches!(res, Some(Operand::Reg(4))));
    assert_eq!(
        dbg_all(&b.blocks[0].insts),
        vec![
            "Call { dest: Some(0), ret: I64, callee: \"js_array_alloc\", args: [(I32, Int(2))] }",
            "Call { dest: Some(1), ret: I64, callee: \"js_array_push_f64\", args: [(I64, Reg(0)), (Double, Ext(\"%a\"))] }",
            "Call { dest: Some(2), ret: I64, callee: \"js_array_push_f64\", args: [(I64, Reg(1)), (Double, Ext(\"%b\"))] }",
            "Call { dest: Some(3), ret: I64, callee: \"js_promise_try\", args: [(Double, Ext(\"%f\")), (I64, Reg(2))] }",
            "NanboxPointer { dest: 4, val: Reg(3) }",
        ]
    );
}

#[test]
fn array_from_async_and_unknown_statics() {
    let mut b = FnBuilder::new();
    let none = try_lower_promise_static_call(&mut b, &prop_of_global("fromAsync"), Some("Array"), &vec![]);
    assert!(matches!(none, Some(Operand::Tag(JsTag::Undefined))));
    assert!(try_lower_promise_static_call(&mut b, &prop_of_global("all"), Some("Array"), &vec![]).is_none());
    assert!(try_lower_promise_static_call(&mut b, &prop_of_global("nope"), Some("Promise"), &vec![]).is_none());
    assert!(b.blocks[0].insts.is_empty());
    let res = try_lower_promise_static_call(&mut b, &prop_of_global("fromAsync"), Some("Array"), &vec![ext("%src")]);
    assert!(matches!(res, Some(Operand::Reg(0))));
}
