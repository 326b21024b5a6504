use perry_lower_call::atomics::try_lower_atomics_static_call;
use perry_lower_call::class_layout::{ClassInfo, FieldInfo};
use perry_lower_call::closure_call::{closure_call_runtime, try_lower_current_step_closure_call, LowerError};
use perry_lower_call::console::{lower_call_console, try_lower_console_call};
use perry_lower_call::method_dispatch::lower_call_fallthrough;
use perry_lower_call::buffer_read::{try_emit_buffer_read_intrinsic, ReadOffset};
use perry_lower_call::builtin_new::lower_new_lru_cache;
use perry_lower_call::fetch::{build_headers_from_object, get_raw_string_ptr, lower_fetch_native_method};
use perry_lower_call::extern_call::{lower_cross_module_call, lower_imported_var_call, ExternCallPath, ExternOutcome};
use perry_lower_call::hir::Expr;
use perry_lower_call::ir::{FnBuilder, Inst, JsTag, Operand, Ty};
use perry_lower_call::namespace_call::{member_prefix, namespace_path, try_lower_namespace_member_call, ImportTables, NamespacePath};
use perry_lower_call::new_object::{lower_new_prelude, NewOutcome};
use perry_lower_call::receiver_methods::{
    lower_number_format, lower_to_string_any, lower_to_string_radix, lower_to_string_with_encoding, EncodingArg,
    ReceiverRoute,
};

fn ext(s: &str) -> Operand {
    Operand::Ext(s.to_string())
}

fn insts(b: &FnBuilder) -> &Vec<Inst> {
    &b.blocks[b.current].insts
}

fn callee_of(i: &Inst) -> &str {
    match i {
        Inst::Call { callee, .. } => callee.as_str(),
        _ => panic!("not a call: {:?}", i),
    }
}

fn is_ext(o: &Operand, s: &str) -> bool {
    matches!(o, Operand::Ext(x) if x == s)
}

fn class(name: &str, fields: &[&str], extends: Option<&str>) -> ClassInfo {
    ClassInfo {
        name: name.to_string(),
        fields: fields.iter().map(|f| FieldInfo { name: f.to_string(), computed: false }).collect(),
        extends: extends.map(|e| e.to_string()),
        has_ctor: true,
    }
}

fn empty_tables() -> ImportTables {
    ImportTables {
        namespace_imports: vec![],
        namespace_v8: vec![],
        member_prefixes: vec![],
        function_prefixes: vec![],
        function_v8: vec![],
        imported_vars: vec![],
    }
}

#[test]
fn to_fixed_calls_formatter_and_boxes_string() {
    let mut b = FnBuilder::new();
    let res = lower_number_format(&mut b, ReceiverRoute::ToFixed, ext("%n"), Some(ext("%d")));
    assert!(matches!(res, Operand::Reg(1)));
    let is = insts(&b);
    assert_eq!(is.len(), 2);
    match &is[0] {
        Inst::Call { dest, ret, callee, args } => {
            assert_eq!(*dest, Some(0));
            assert_eq!(*ret, Ty::I64);
            assert_eq!(callee, "js_number_to_fixed");
            assert_eq!(args.len(), 2);
            assert!(args[0].0 == Ty::Double && is_ext(&args[0].1, "%n"));
            assert!(args[1].0 == Ty::Double && is_ext(&args[1].1, "%d"));
        },
        other => panic!("unexpected {:?}", other),
    }
    assert!(matches!(&is[1], Inst::NanboxString { dest: 1, val: Operand::Reg(0) }));
    assert_eq!(b.next_reg, 2);
}

#[test]
fn to_exponential_without_digits_passes_zero() {
    let mut b = FnBuilder::new();
    lower_number_format(&mut b, ReceiverRoute::ToExponential, ext("%n"), None);
    match &insts(&b)[0] {
        Inst::Call { callee, args, .. } => {
            assert_eq!(callee, "js_number_to_exponential");
            assert!(matches!(args[1].1, Operand::Zero));
        },
        other => panic!("unexpected {:?}", other),
    }
}

#[test]
fn to_string_radix_converts_radix_to_i32() {
    let mut b = FnBuilder::new();
    let res = lower_to_string_radix(&mut b, ext("%v"), ext("%r"));
    assert!(matches!(res, Operand::Reg(2)));
    let is = insts(&b);
    assert_eq!(is.len(), 3);
    assert!(matches!(&is[0], Inst::Fptosi { dest: 0, to: Ty::I32, val } if is_ext(val, "%r")));
    match &is[1] {
        Inst::Call { dest, callee, args, .. } => {
            assert_eq!(*dest, Some(1));
            assert_eq!(callee, "js_jsvalue_to_string_radix");
            assert!(args[1].0 == Ty::I32 && matches!(args[1].1, Operand::Reg(0)));
        },
        other => panic!("unexpected {:?}", other),
    }
    assert!(matches!(&is[2], Inst::NanboxString { dest: 2, val: Operand::Reg(1) }));
}

#[test]
fn to_string_literal_encoding_is_resolved_at_compile_time() {
    let mut b = FnBuilder::new();
    lower_to_string_with_encoding(&mut b, ext("%buf"), EncodingArg::Literal("HEX".to_string()));
    let is = insts(&b);
    assert_eq!(is.len(), 2);
    match &is[0] {
        Inst::Call { ret, callee, args, .. } => {
            assert_eq!(*ret, Ty::I64);
            assert_eq!(callee, "js_value_to_string_with_encoding");
            assert!(args[1].0 == Ty::I32 && matches!(args[1].1, Operand::Int(1)));
        },
        other => panic!("unexpected {:?}", other),
    }
}

#[test]
fn to_string_dynamic_encoding_asks_the_runtime() {
    let mut b = FnBuilder::new();
    let res = lower_to_string_with_encoding(&mut b, ext("%buf"), EncodingArg::Lowered(ext("%enc")));
    assert!(matches!(res, Operand::Reg(2)));
    let is = insts(&b);
    assert_eq!(callee_of(&is[0]), "js_encoding_tag_from_value");
    assert_eq!(callee_of(&is[1]), "js_value_to_string_with_encoding");
}

#[test]
fn universal_to_string() {
    let mut b = FnBuilder::new();
    lower_to_string_any(&mut b, ext("%v"));
    assert_eq!(callee_of(&insts(&b)[0]), "js_jsvalue_to_string");
}

#[test]
fn atomics_add_passes_null_then_values() {
    let mut b = FnBuilder::new();
    let callee = Expr::PropertyGet {
        object: Box::new(Expr::PropertyGet { object: Box::new(Expr::GlobalGet(0)), property: "Atomics".to_string() }),
        property: "add".to_string(),
    };
    let args = vec![ext("%ta"), ext("%i"), ext("%v")];
    let res = try_lower_atomics_static_call(&mut b, &callee, &args);
    assert!(matches!(res, Some(Operand::Reg(0))));
    match &insts(&b)[0] {
        Inst::Call { callee, args, ret, .. } => {
            assert_eq!(callee, "js_atomics_add");
            assert_eq!(*ret, Ty::Double);
            assert_eq!(args.len(), 4);
            assert!(args[0].0 == Ty::Ptr && matches!(args[0].1, Operand::Null));
            assert!(is_ext(&args[3].1, "%v"));
        },
        other => panic!("unexpected {:?}", other),
    }
}

#[test]
fn atomics_load_pads_missing_value_with_undefined() {
    let mut b = FnBuilder::new();
    let callee = Expr::PropertyGet {
        object: Box::new(Expr::PropertyGet { object: Box::new(Expr::GlobalGet(0)), property: "Atomics".to_string() }),
        property: "load".to_string(),
    };
    try_lower_atomics_static_call(&mut b, &callee, &vec![ext("%ta")]);
    match &insts(&b)[0] {
        Inst::Call { args, .. } => {
            assert_eq!(args.len(), 3);
            assert!(matches!(args[2].1, Operand::Tag(JsTag::Undefined)));
        },
        other => panic!("unexpected {:?}", other),
    }
}

#[test]
fn non_atomics_callee_emits_nothing() {
    let mut b = FnBuilder::new();
    let callee = Expr::PropertyGet { object: Box::new(Expr::GlobalGet(0)), property: "add".to_string() };
    assert!(try_lower_atomics_static_call(&mut b, &callee, &vec![]).is_none());
    assert!(insts(&b).is_empty());
}

#[test]
fn console_log_prints_each_argument() {
    let mut b = FnBuilder::new();
    let callee = Expr::PropertyGet { object: Box::new(Expr::GlobalGet(0)), property: "log".to_string() };
    let res = try_lower_console_call(&mut b, &callee, &vec![ext("%a")]);
    assert!(res.is_some());
    assert!(insts(&b).iter().any(|i| matches!(i, Inst::Call { callee, .. } if callee.starts_with("js_console"))));
}

#[test]
fn closure_call_runtime_names() {
    assert_eq!(closure_call_runtime(0), "js_closure_call0");
    assert_eq!(closure_call_runtime(16), "js_closure_call16");
}

#[test]
fn imported_closure_with_too_many_arguments_is_an_error() {
    let mut b = FnBuilder::new();
    let args: Vec<Operand> = (0..17).map(|i| ext(&format!("%a{}", i))).collect();
    let res = lower_imported_var_call(&mut b, "mod_ts", "make", &args);
    assert_eq!(res.unwrap_err(), LowerError::ClosureArity { nargs: 17 });
    assert!(insts(&b).is_empty());
    assert!(b.declares.is_empty());
}

#[test]
fn imported_closure_goes_through_its_getter() {
    let mut b = FnBuilder::new();
    let res = lower_imported_var_call(&mut b, "mod_ts", "make", &vec![ext("%a")]).unwrap();
    assert!(matches!(res, Operand::Reg(2)));
    let is = insts(&b);
    assert_eq!(callee_of(&is[0]), "perry_fn_mod_ts__make");
    assert_eq!(callee_of(&is[2]), "js_closure_call1");
    assert_eq!(b.declares[0].name, "perry_fn_mod_ts__make");
}

#[test]
fn cross_module_call_pads_to_declared_count() {
    let mut b = FnBuilder::new();
    lower_cross_module_call(&mut b, "util_ts", "add", Some(3), false, &vec![ext("%a")]);
    let call = insts(&b).last().unwrap();
    match call {
        Inst::Call { callee, args, .. } => {
            assert_eq!(callee, "perry_fn_util_ts__add");
            assert_eq!(args.len(), 3);
            assert!(is_ext(&args[0].1, "%a"));
            assert!(matches!(args[1].1, Operand::Tag(JsTag::Undefined)));
            assert!(matches!(args[2].1, Operand::Tag(JsTag::Undefined)));
        },
        other => panic!("unexpected {:?}", other),
    }
    assert_eq!(b.declares[0].params.len(), 3);
}

#[test]
fn namespace_member_prefix_prefers_the_namespace_entry() {
    let mut t = empty_tables();
    t.member_prefixes.push(("R".to_string(), "sum".to_string(), "ramda_src".to_string()));
    t.function_prefixes.push(("sum".to_string(), "other_src".to_string()));
    assert_eq!(member_prefix(&t, "R", "sum").as_deref(), Some("ramda_src"));
    assert_eq!(member_prefix(&t, "S", "sum").as_deref(), Some("other_src"));
    assert_eq!(member_prefix(&t, "R", "map"), None);
}

#[test]
fn namespace_paths_in_order() {
    let mut t = empty_tables();
    assert_eq!(namespace_path(&t, "R", "sum").0, NamespacePath::NotNamespace);
    t.namespace_imports.push("R".to_string());
    assert_eq!(namespace_path(&t, "R", "sum").0, NamespacePath::Unresolved);
    t.function_prefixes.push(("sum".to_string(), "ramda".to_string()));
    assert_eq!(namespace_path(&t, "R", "sum").0, NamespacePath::Declaration);
    t.imported_vars.push("sum".to_string());
    assert_eq!(namespace_path(&t, "R", "sum").0, NamespacePath::ImportedVar);
    t.namespace_v8.push("R".to_string());
    assert_eq!(namespace_path(&t, "R", "sum").0, NamespacePath::V8Namespace);
}

#[test]
fn namespace_declaration_with_rest_does_not_pad_fixed_arguments() {
    let mut t = empty_tables();
    t.namespace_imports.push("R".to_string());
    t.function_prefixes.push(("sum".to_string(), "ramda".to_string()));
    let callee = Expr::PropertyGet {
        object: Box::new(Expr::ExternFuncRef { name: "R".to_string() }),
        property: "sum".to_string(),
    };
    let mut b = FnBuilder::new();
    let res = try_lower_namespace_member_call(&mut b, &callee, &t, "sum", Some(3), true, &vec![ext("%a")]);
    assert!(matches!(res, Ok(Some(ExternOutcome::Lowered(_)))));
    match insts(&b).last().unwrap() {
        Inst::Call { callee, args, .. } => {
            assert_eq!(callee, "perry_fn_ramda__sum");
            // the one passed fixed argument, then the rest array
            assert_eq!(args.len(), 2);
            assert!(is_ext(&args[0].1, "%a"));
        },
        other => panic!("unexpected {:?}", other),
    }
}

#[test]
fn namespace_member_on_v8_module_goes_elsewhere() {
    let mut t = empty_tables();
    t.namespace_imports.push("ink".to_string());
    t.namespace_v8.push("ink".to_string());
    let callee = Expr::PropertyGet {
        object: Box::new(Expr::ExternFuncRef { name: "ink".to_string() }),
        property: "render".to_string(),
    };
    let mut b = FnBuilder::new();
    let res = try_lower_namespace_member_call(&mut b, &callee, &t, "render", None, false, &vec![]);
    assert!(matches!(res, Ok(Some(ExternOutcome::Elsewhere(ExternCallPath::V8Bridge)))));
    assert!(insts(&b).is_empty());
}

#[test]
fn new_of_user_class_and_alias() {
    let classes = vec![class("Point", &["x", "y"], None)];
    let aliases = vec![("P".to_string(), "Point".to_string())];
    let mut b = FnBuilder::new();
    assert!(matches!(lower_new_prelude(&mut b, &classes, &aliases, "Point", None, &vec![]), NewOutcome::Class(0)));
    assert!(matches!(lower_new_prelude(&mut b, &classes, &aliases, "P", None, &vec![]), NewOutcome::Class(0)));
    assert!(insts(&b).is_empty());
}

#[test]
fn new_of_unknown_class_allocates_placeholder() {
    let mut b = FnBuilder::new();
    let res = lower_new_prelude(&mut b, &vec![], &vec![], "Mystery", None, &vec![]);
    assert!(matches!(res, NewOutcome::Placeholder(Operand::Reg(1))));
    let is = insts(&b);
    match &is[0] {
        Inst::Call { callee, ret, args, .. } => {
            assert_eq!(callee, "js_object_alloc");
            assert_eq!(*ret, Ty::I64);
            assert!(matches!(args[0], (Ty::I32, Operand::Int(0))));
            assert!(matches!(args[1], (Ty::I32, Operand::Int(0))));
        },
        other => panic!("unexpected {:?}", other),
    }
    assert!(matches!(&is[1], Inst::NanboxPointer { dest: 1, val: Operand::Reg(0) }));
}

#[test]
fn new_builtin_unless_a_user_class_shadows_it() {
    let mut b = FnBuilder::new();
    let res = lower_new_prelude(&mut b, &vec![], &vec![], "EventEmitter", None, &vec![]);
    assert!(matches!(res, NewOutcome::Builtin(_)));
    assert_eq!(callee_of(&insts(&b)[0]), "js_event_emitter_new");

    let classes = vec![class("EventEmitter", &["handlers"], None)];
    let mut b2 = FnBuilder::new();
    let res2 = lower_new_prelude(&mut b2, &classes, &vec![], "EventEmitter", None, &vec![]);
    assert!(matches!(res2, NewOutcome::Class(0)));
    assert!(insts(&b2).is_empty());
}

#[test]
fn new_pool_from_unrelated_package_is_not_the_pg_pool() {
    let mut b = FnBuilder::new();
    let res = lower_new_prelude(&mut b, &vec![], &vec![], "Pool", Some("generic-pool"), &vec![ext("%cfg")]);
    assert!(matches!(res, NewOutcome::Placeholder(_)));
    assert_eq!(callee_of(&insts(&b)[0]), "js_object_alloc");
}

#[test]
fn response_ok_maps_truth_to_boolean() {
    let mut b = FnBuilder::new();
    let res = lower_fetch_native_method(&mut b, "fetch", "ok", Some(ext("%resp")), &vec![]);
    assert!(matches!(res, Some(Operand::Reg(3))));
    let is = insts(&b);
    assert_eq!(callee_of(&is[0]), "js_fetch_response_ok");
    assert!(matches!(&is[1], Inst::FloatNe { dest: 1, lhs: Operand::Reg(0), rhs: Operand::Zero }));
    assert!(matches!(
        &is[2],
        Inst::Select { dest: 2, ty: Ty::I64, if_true: Operand::Tag(JsTag::True), if_false: Operand::Tag(JsTag::False), .. }
    ));
    assert!(matches!(&is[3], Inst::BitcastI64ToDouble { dest: 3, val: Operand::Reg(2) }));
}

#[test]
fn response_redirect_defaults_status_to_302() {
    let mut b = FnBuilder::new();
    let res = lower_fetch_native_method(&mut b, "fetch", "static_redirect", None, &vec![ext("%url")]);
    assert!(matches!(res, Some(Operand::Reg(1))));
    let is = insts(&b);
    assert_eq!(callee_of(&is[0]), "js_get_string_pointer_unified");
    match &is[1] {
        Inst::Call { callee, args, .. } => {
            assert_eq!(callee, "js_response_static_redirect");
            assert!(matches!(args[0], (Ty::I64, Operand::Reg(0))));
            assert!(matches!(args[1], (Ty::Double, Operand::Num(302))));
        },
        other => panic!("unexpected {:?}", other),
    }
    let mut b2 = FnBuilder::new();
    lower_fetch_native_method(&mut b2, "fetch", "static_redirect", None, &vec![]);
    match &insts(&b2)[0] {
        Inst::Call { args, .. } => assert!(matches!(args[0], (Ty::I64, Operand::Int(0)))),
        other => panic!("unexpected {:?}", other),
    }
}

#[test]
fn raw_string_pointer_of_a_value() {
    let mut b = FnBuilder::new();
    let p = get_raw_string_ptr(&mut b, ext("%s"));
    assert!(matches!(p, Operand::Reg(0)));
    assert_eq!(callee_of(&insts(&b)[0]), "js_get_string_pointer_unified");
}

#[test]
fn headers_from_object_sets_each_entry() {
    let mut b = FnBuilder::new();
    let props = vec![(ext("%k1"), ext("%v1")), (ext("%k2"), ext("%v2"))];
    let h = build_headers_from_object(&mut b, &props);
    assert!(matches!(h, Operand::Reg(0)));
    let is = insts(&b);
    assert_eq!(is.len(), 7);
    assert_eq!(callee_of(&is[0]), "js_headers_new");
    match &is[6] {
        Inst::Call { dest, callee, args, .. } => {
            assert_eq!(*dest, Some(6));
            assert_eq!(callee, "js_headers_set");
            assert!(matches!(args[0], (Ty::Double, Operand::Reg(0))));
            assert!(matches!(args[1], (Ty::I64, Operand::Reg(4))));
            assert!(matches!(args[2], (Ty::I64, Operand::Reg(5))));
        },
        other => panic!("unexpected {:?}", other),
    }
    assert_eq!(b.next_reg, 7);
}

#[test]
fn lru_cache_capacity_from_options() {
    let mut b = FnBuilder::new();
    let opts = vec![("max".to_string(), ext("%m1")), ("ttl".to_string(), ext("%t")), ("max".to_string(), ext("%m2"))];
    let res = lower_new_lru_cache(&mut b, Some(&opts));
    assert!(matches!(res, Operand::Reg(1)));
    match &insts(&b)[0] {
        Inst::Call { callee, args, .. } => {
            assert_eq!(callee, "js_lru_cache_new");
            assert!(is_ext(&args[0].1, "%m2"));
        },
        other => panic!("unexpected {:?}", other),
    }
    let mut b2 = FnBuilder::new();
    lower_new_lru_cache(&mut b2, None);
    match &insts(&b2)[0] {
        Inst::Call { args, .. } => assert!(matches!(args[0].1, Operand::Num(100))),
        other => panic!("unexpected {:?}", other),
    }
}

#[test]
fn blob_slice_uses_nan_for_missing_bounds() {
    let mut b = FnBuilder::new();
    let res = lower_fetch_native_method(&mut b, "blob", "slice", Some(ext("%blob")), &vec![ext("%start")]);
    assert!(matches!(res, Some(Operand::Reg(0))));
    match &insts(&b)[0] {
        Inst::Call { callee, args, .. } => {
            assert_eq!(callee, "js_blob_slice");
            assert_eq!(args.len(), 4);
            assert!(is_ext(&args[1].1, "%start"));
            assert!(matches!(args[2], (Ty::Double, Operand::Nan)));
            assert!(matches!(args[3], (Ty::I64, Operand::Int(0))));
        },
        other => panic!("unexpected {:?}", other),
    }
}

#[test]
fn pipe_through_splits_the_transform() {
    let mut b = FnBuilder::new();
    let res = lower_fetch_native_method(&mut b, "readable_stream", "pipeThrough", Some(ext("%rs")), &vec![ext("%ts")]);
    assert!(matches!(res, Some(Operand::Reg(4))));
    let is = insts(&b);
    assert_eq!(callee_of(&is[0]), "js_stream_unwrap_handle");
    assert_eq!(callee_of(&is[1]), "js_stream_unwrap_handle");
    assert_eq!(callee_of(&is[2]), "js_transform_stream_writable");
    assert_eq!(callee_of(&is[3]), "js_transform_stream_readable");
    match &is[4] {
        Inst::Call { callee, args, .. } => {
            assert_eq!(callee, "js_readable_stream_pipe_through");
            assert!(matches!(args[0], (Ty::Double, Operand::Reg(0))));
            assert!(matches!(args[1], (Ty::Double, Operand::Reg(2))));
            assert!(matches!(args[2], (Ty::Double, Operand::Reg(3))));
        },
        other => panic!("unexpected {:?}", other),
    }
}

fn dbg_inst(i: &Inst) -> String {
    format!("{:?}", i)
}

#[test]
fn big_endian_int16_read_is_inlined_with_swap_and_sign_extension() {
    let mut b = FnBuilder::new();
    let slot = Operand::Ext("%buf.data".to_string());
    let res = try_emit_buffer_read_intrinsic(
        &mut b,
        "readInt16BE",
        1,
        Some((slot, 3)),
        ReadOffset::Double(Operand::Ext("%off".to_string())),
    );
    assert!(matches!(res, Some(Operand::Reg(10))));
    let is: Vec<String> = b.blocks[0].insts.iter().map(dbg_inst).collect();
    assert_eq!(is.len(), 12);
    assert_eq!(is[0], "Fptosi { dest: 0, to: I32, val: Ext(\"%off\") }");
    assert_eq!(is[1], "Load { dest: 1, ty: Ptr, ptr: Ext(\"%buf.data\") }");
    assert_eq!(is[2], "GepOffset { dest: 2, elem: I8, base: Reg(1), offset: -8 }");
    assert_eq!(is[3], "LoadInvariant { dest: 3, ty: I32, ptr: Reg(2) }");
    assert_eq!(is[4], "Add { dest: 4, ty: I32, lhs: Reg(0), rhs: Int(2) }");
    assert_eq!(is[5], "IntUle { dest: 5, ty: I32, lhs: Reg(4), rhs: Reg(3) }");
    assert_eq!(is[6], "Call { dest: None, ret: Void, callee: \"llvm.assume\", args: [(I1, Reg(5))] }");
    assert_eq!(is[7], "GepInbounds { dest: 6, elem: I8, base: Reg(1), index: Reg(0) }");
    assert_eq!(is[8], "LoadScoped { dest: 7, ty: I16, ptr: Reg(6), scope: 3 }");
    assert_eq!(is[9], "Call { dest: Some(8), ret: I16, callee: \"llvm.bswap.i16\", args: [(I16, Reg(7))] }");
    assert_eq!(is[10], "Sext { dest: 9, from: I16, to: I32, val: Reg(8) }");
    assert_eq!(is[11], "Sitofp { dest: 10, from: I32, val: Reg(9) }");
    assert_eq!(b.next_reg, 11);
}

#[test]
fn little_endian_float_read_bitcasts_and_extends() {
    let mut b = FnBuilder::new();
    let res = try_emit_buffer_read_intrinsic(
        &mut b,
        "readFloatLE",
        1,
        Some((Operand::Ext("%slot".to_string()), 0)),
        ReadOffset::I32(Operand::Int(4)),
    );
    assert!(matches!(res, Some(Operand::Reg(8))));
    let is: Vec<String> = b.blocks[0].insts.iter().map(dbg_inst).collect();
    assert_eq!(is.len(), 10);
    assert_eq!(is[3], "Add { dest: 3, ty: I32, lhs: Int(4), rhs: Int(4) }");
    assert_eq!(is[7], "LoadScoped { dest: 6, ty: I32, ptr: Reg(5), scope: 0 }");
    assert_eq!(is[8], "BitcastI32ToFloat { dest: 7, val: Reg(6) }");
    assert_eq!(is[9], "Fpext { dest: 8, val: Reg(7) }");
}

#[test]
fn unsigned_byte_read_zero_extends() {
    let mut b = FnBuilder::new();
    let res = try_emit_buffer_read_intrinsic(&mut b, "readUInt8", 1, Some((Operand::Ext("%s".to_string()), 1)), ReadOffset::I32(Operand::Int(0)));
    assert!(matches!(res, Some(Operand::Reg(8))));
    let is: Vec<String> = b.blocks[0].insts.iter().map(dbg_inst).collect();
    assert_eq!(is[7], "LoadScoped { dest: 6, ty: I8, ptr: Reg(5), scope: 1 }");
    assert_eq!(is[8], "Zext { dest: 7, from: I8, to: I32, val: Reg(6) }");
    assert_eq!(is[9], "Uitofp { dest: 8, from: I32, val: Reg(7) }");
}

#[test]
fn untracked_receiver_or_wrong_arity_is_not_inlined() {
    let mut b = FnBuilder::new();
    let res = try_emit_buffer_read_intrinsic(&mut b, "readInt32LE", 1, None, ReadOffset::I32(Operand::Int(0)));
    assert!(res.is_none());
    let res = try_emit_buffer_read_intrinsic(&mut b, "readInt32LE", 2, Some((Operand::Ext("%s".to_string()), 0)), ReadOffset::I32(Operand::Int(0)));
    assert!(res.is_none());
    let res = try_emit_buffer_read_intrinsic(&mut b, "toString", 1, Some((Operand::Ext("%s".to_string()), 0)), ReadOffset::I32(Operand::Int(0)));
    assert!(res.is_none());
    assert!(b.blocks[0].insts.is_empty());
    assert_eq!(b.next_reg, 0);
}

#[test]
fn unknown_stream_method_leaves_only_the_receiver_unwrap() {
    let mut b = FnBuilder::new();
    let res = lower_fetch_native_method(&mut b, "readable_stream", "frobnicate", Some(ext("%s")), &vec![]);
    assert!(res.is_none());
    assert_eq!(b.blocks[0].insts.len(), 1);
    assert_eq!(
        dbg_inst(&b.blocks[0].insts[0]),
        "Call { dest: Some(0), ret: Double, callee: \"js_stream_unwrap_handle\", args: [(Double, Ext(\"%s\"))] }"
    );
    let mut b = FnBuilder::new();
    assert!(lower_fetch_native_method(&mut b, "Headers", "frobnicate", Some(ext("%h")), &vec![]).is_none());
    assert!(lower_fetch_native_method(&mut b, "readable_stream", "frobnicate", None, &vec![]).is_none());
    assert!(b.blocks[0].insts.is_empty());
}

fn console_prop(p: &str) -> Expr {
    Expr::PropertyGet { object: Box::new(Expr::GlobalGet(0)), property: p.to_string() }
}

#[test]
fn general_call_console_log_of_a_number_uses_the_number_printer() {
    let mut b = FnBuilder::new();
    let res = lower_call_console(&mut b, &console_prop("log"), true, &vec![ext("%v")]);
    assert!(matches!(res, Some(Operand::Zero)));
    assert_eq!(
        dbg_inst(&b.blocks[0].insts[0]),
        "Call { dest: None, ret: Void, callee: \"js_console_log_number\", args: [(Double, Ext(\"%v\"))] }"
    );
    assert_eq!(b.blocks[0].insts.len(), 1);
    let mut b = FnBuilder::new();
    let res = lower_call_console(&mut b, &console_prop("error"), false, &vec![ext("%v")]);
    assert!(matches!(res, Some(Operand::Zero)));
    assert_eq!(
        dbg_inst(&b.blocks[0].insts[0]),
        "Call { dest: None, ret: Void, callee: \"js_console_error_dynamic\", args: [(Double, Ext(\"%v\"))] }"
    );
}

#[test]
fn general_call_console_several_args_and_labels() {
    let mut b = FnBuilder::new();
    let res = lower_call_console(&mut b, &console_prop("warn"), false, &vec![ext("%a"), ext("%b")]);
    assert!(matches!(res, Some(Operand::Zero)));
    assert_eq!(
        dbg_inst(&b.blocks[0].insts[3]),
        "Call { dest: None, ret: Void, callee: \"js_console_warn_spread\", args: [(I64, Reg(2))] }"
    );
    let mut b = FnBuilder::new();
    let res = lower_call_console(&mut b, &console_prop("time"), false, &vec![ext("%l")]);
    assert!(matches!(res, Some(Operand::Zero)));
    assert_eq!(
        dbg_inst(&b.blocks[0].insts[1]),
        "Call { dest: None, ret: Void, callee: \"js_console_time\", args: [(I64, Reg(0))] }"
    );
    let mut b = FnBuilder::new();
    let res = lower_call_console(&mut b, &console_prop("trace"), false, &vec![]);
    assert!(matches!(res, Some(Operand::Tag(JsTag::Undefined))));
    assert!(b.blocks[0].insts.is_empty());
    assert!(lower_call_console(&mut b, &console_prop("nope"), false, &vec![]).is_none());
}

#[test]
fn general_call_fallthrough_refuses_more_than_sixteen_arguments() {
    let mut b = FnBuilder::new();
    let callee = Expr::Call { callee: Box::new(Expr::Other), args: vec![] };
    let args: Vec<Operand> = (0..17).map(|i| ext(&format!("%a{}", i))).collect();
    let res = lower_call_fallthrough(&mut b, &callee, None, ext("%f"), &args);
    assert_eq!(res.err(), Some(LowerError::UnsupportedCallee { nargs: 17 }));
    assert!(b.blocks[0].insts.is_empty());
    let res = lower_call_fallthrough(&mut b, &callee, None, ext("%f"), &vec![ext("%x")]);
    assert!(matches!(res, Ok(Operand::Reg(1))));
    assert_eq!(
        dbg_inst(&b.blocks[0].insts[1]),
        "Call { dest: Some(1), ret: Double, callee: \"js_closure_call1\", args: [(I64, Reg(0)), (Double, Ext(\"%x\"))] }"
    );
}

#[test]
fn current_step_closure_with_too_many_arguments_has_its_own_error() {
    let mut b = FnBuilder::new();
    let args: Vec<Operand> = (0..17).map(|i| ext(&format!("%a{}", i))).collect();
    let res = try_lower_current_step_closure_call(&mut b, &Expr::CurrentStepClosure, ext("%r"), &args);
    assert_eq!(res.unwrap_err(), LowerError::CurrentStepArity { nargs: 17 });
    assert!(insts(&b).is_empty());
}
