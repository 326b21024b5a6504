use perry_lower_call::extern_call::{try_lower_extern_func_call, AppMetadata, ExternLink, ExternNameFacts, ExternOutcome};
use perry_lower_call::ffi::{FfiFacts, HirReturn};
use perry_lower_call::hir::Expr;
use perry_lower_call::ir::{FnBuilder, Inst, JsTag, Operand, Ty};
use perry_lower_call::ui_table::{UiArgKind, UiReturnKind, UiSig};

fn ext(s: &str) -> Operand {
    Operand::Ext(s.to_string())
}

fn dbg_all(is: &[Inst]) -> Vec<String> {
    is.iter().map(|i| format!("{:?}", i)).collect()
}

fn manifest_facts() -> ExternNameFacts {
    ExternNameFacts {
        node_submodule: false,
        perry_table: false,
        in_ffi_manifest: true,
        has_source_prefix: false,
        v8_fallback: false,
        imported_var: false,
    }
}

fn link() -> ExternLink {
    ExternLink {
        source_prefix: String::new(),
        origin_suffix: String::new(),
        declared: None,
        has_rest: false,
        node_submodule: None,
        perry_table: None,
    }
}

fn meta() -> AppMetadata {
    AppMetadata { version: "1.2.3".to_string(), build_number: 42, bundle_id: "com.example.app".to_string() }
}

fn ffi(params: &[&str], ret: &str, hir_return: HirReturn, strings: Vec<bool>) -> FfiFacts {
    let n = strings.len();
    FfiFacts {
        arg_is_string: strings,
        arg_is_array: vec![false; n],
        manifest: Some((params.iter().map(|p| p.to_string()).collect(), ret.to_string())),
        hir_return,
    }
}

fn call_native(name: &str, f: &FfiFacts, args: Vec<Operand>) -> (FnBuilder, Operand) {
    let mut b = FnBuilder::new();
    let callee = Expr::ExternFuncRef { name: name.to_string() };
    let res = try_lower_extern_func_call(&mut b, &callee, &manifest_facts(), &link(), &meta(), f, &args);
    match res {
        Ok(Some(ExternOutcome::Lowered(o))) => (b, o),
        other => panic!("unexpected {:?}", other),
    }
}

#[test]
fn i64_str_result_is_boxed_as_string_even_over_hir_string() {
    let f = ffi(&["i64"], "i64_str", HirReturn::String, vec![false]);
    let (b, o) = call_native("f", &f, vec![ext("%a")]);
    assert!(matches!(o, Operand::Reg(2)));
    assert_eq!(
        dbg_all(&b.blocks[0].insts),
        vec![
            "Fptosi { dest: 0, to: I64, val: Ext(\"%a\") }",
            "Call { dest: Some(1), ret: I64, callee: \"f\", args: [(I64, Reg(0))] }",
            "NanboxString { dest: 2, val: Reg(1) }",
        ]
    );
    assert_eq!(b.declares.len(), 1);
    assert_eq!(b.declares[0].name, "f");
    assert_eq!(b.declares[0].ret, Ty::I64);
    assert_eq!(b.declares[0].params, vec![Ty::I64]);
}

#[test]
fn string_result_goes_through_ptrtoint() {
    let f = ffi(&[], "string", HirReturn::Other, vec![true]);
    let (b, o) = call_native("read_name", &f, vec![ext("%s")]);
    assert!(matches!(o, Operand::Reg(4)));
    assert_eq!(
        dbg_all(&b.blocks[0].insts),
        vec![
            "Call { dest: Some(0), ret: I64, callee: \"js_get_string_pointer_unified\", args: [(Double, Ext(\"%s\"))] }",
            "IntToPtr { dest: 1, val: Reg(0) }",
            "Call { dest: Some(2), ret: Ptr, callee: \"read_name\", args: [(Ptr, Reg(1))] }",
            "PtrToInt { dest: 3, val: Reg(2) }",
            "NanboxString { dest: 4, val: Reg(3) }",
        ]
    );
    assert_eq!(b.declares[0].ret, Ty::Ptr);
    assert_eq!(b.declares[0].params, vec![Ty::Ptr]);
}

#[test]
fn ptr_is_an_alias_of_string() {
    let f = ffi(&[], "ptr", HirReturn::Other, vec![]);
    let (b, o) = call_native("g", &f, vec![]);
    assert!(matches!(o, Operand::Reg(2)));
    assert_eq!(b.declares[0].ret, Ty::Ptr);
    assert_eq!(dbg_all(&b.blocks[0].insts)[1], "PtrToInt { dest: 1, val: Reg(0) }");
}

#[test]
fn i64_result_stays_numeric() {
    let f = ffi(&["double"], "i64", HirReturn::Other, vec![false]);
    let (b, o) = call_native("make_view", &f, vec![ext("%x")]);
    assert!(matches!(o, Operand::Reg(1)));
    assert_eq!(
        dbg_all(&b.blocks[0].insts),
        vec![
            "Call { dest: Some(0), ret: I64, callee: \"make_view\", args: [(Double, Ext(\"%x\"))] }",
            "Sitofp { dest: 1, from: I64, val: Reg(0) }",
        ]
    );
}

#[test]
fn void_result_yields_undefined() {
    let f = ffi(&["i64", "double"], "void", HirReturn::Other, vec![false, false]);
    let (b, o) = call_native("draw", &f, vec![ext("%h"), ext("%x")]);
    assert!(matches!(o, Operand::Tag(JsTag::Undefined)));
    assert_eq!(
        dbg_all(&b.blocks[0].insts),
        vec![
            "Fptosi { dest: 0, to: I64, val: Ext(\"%h\") }",
            "Call { dest: None, ret: Void, callee: \"draw\", args: [(I64, Reg(0)), (Double, Ext(\"%x\"))] }",
        ]
    );
    assert_eq!(b.declares[0].ret, Ty::Void);
    assert_eq!(b.declares[0].params, vec![Ty::I64, Ty::Double]);
}

#[test]
fn array_argument_passes_its_data_pointer() {
    let f = FfiFacts { arg_is_string: vec![false], arg_is_array: vec![true], manifest: None, hir_return: HirReturn::Other };
    let (b, o) = call_native("sum", &f, vec![ext("%arr")]);
    assert!(matches!(o, Operand::Reg(3)));
    assert_eq!(
        dbg_all(&b.blocks[0].insts),
        vec![
            "UnboxToI64 { dest: 0, val: Ext(\"%arr\") }",
            "IntToPtr { dest: 1, val: Reg(0) }",
            "Gep { dest: 2, elem: I8, base: Reg(1), index: 8 }",
            "Call { dest: Some(3), ret: Double, callee: \"sum\", args: [(Ptr, Reg(2))] }",
        ]
    );
}

#[test]
fn app_metadata_builtins_load_interned_strings() {
    let mut b = FnBuilder::new();
    let facts = ExternNameFacts { in_ffi_manifest: false, has_source_prefix: true, ..manifest_facts() };
    let none = FfiFacts { arg_is_string: vec![], arg_is_array: vec![], manifest: None, hir_return: HirReturn::Other };
    let callee = Expr::ExternFuncRef { name: "getAppVersion".to_string() };
    let res = try_lower_extern_func_call(&mut b, &callee, &facts, &link(), &meta(), &none, &vec![]);
    assert!(matches!(res, Ok(Some(ExternOutcome::Lowered(Operand::Reg(0))))));
    assert_eq!(dbg_all(&b.blocks[0].insts), vec!["Load { dest: 0, ty: Double, ptr: StrHandle(0) }"]);
    assert_eq!(b.strings, vec!["1.2.3".to_string()]);
    let callee = Expr::ExternFuncRef { name: "getBundleId".to_string() };
    let res = try_lower_extern_func_call(&mut b, &callee, &facts, &link(), &meta(), &none, &vec![]);
    assert!(matches!(res, Ok(Some(ExternOutcome::Lowered(Operand::Reg(1))))));
    assert_eq!(b.strings, vec!["1.2.3".to_string(), "com.example.app".to_string()]);
    let callee = Expr::ExternFuncRef { name: "getAppBuildNumber".to_string() };
    let res = try_lower_extern_func_call(&mut b, &callee, &facts, &link(), &meta(), &none, &vec![]);
    assert!(matches!(res, Ok(Some(ExternOutcome::Lowered(Operand::Num(42))))));
    assert_eq!(b.blocks[0].insts.len(), 2);
}

#[test]
fn node_submodule_import_goes_through_the_export_closure() {
    let facts = ExternNameFacts {
        node_submodule: true,
        perry_table: false,
        in_ffi_manifest: false,
        has_source_prefix: false,
        v8_fallback: false,
        imported_var: false,
    };
    let mut l = link();
    l.node_submodule = Some(("stream/promises".to_string(), "pipeline".to_string()));
    let f = ffi(&[], "void", HirReturn::Other, vec![false, false]);
    let mut b = FnBuilder::new();
    let callee = Expr::ExternFuncRef { name: "pipeline".to_string() };
    let args = vec![ext("%a"), ext("%b")];
    let res = try_lower_extern_func_call(&mut b, &callee, &facts, &l, &meta(), &f, &args);
    let o = match res {
        Ok(Some(ExternOutcome::Lowered(o))) => o,
        other => panic!("unexpected {:?}", other),
    };
    assert!(matches!(o, Operand::Reg(2)));
    assert_eq!(
        dbg_all(&b.blocks[0].insts),
        vec![
            "Call { dest: Some(0), ret: Double, callee: \"js_node_submodule_export_as_function\", args: [(Ptr, StrBytes(0)), (I32, Int(15)), (Ptr, StrBytes(1)), (I32, Int(8))] }",
            "UnboxToI64 { dest: 1, val: Reg(0) }",
            "Call { dest: Some(2), ret: Double, callee: \"js_closure_call2\", args: [(I64, Reg(1)), (Double, Ext(\"%a\")), (Double, Ext(\"%b\"))] }",
        ]
    );
    assert_eq!(b.strings, vec!["stream/promises".to_string(), "pipeline".to_string()]);
    assert_eq!(b.declares.len(), 2);
    assert_eq!(b.declares[0].params, vec![Ty::Ptr, Ty::I32, Ty::Ptr, Ty::I32]);
    assert_eq!(b.declares[1].name, "js_closure_call2");
    assert_eq!(b.declares[1].params, vec![Ty::I64, Ty::Double, Ty::Double]);
}

#[test]
fn node_submodule_without_a_link_is_left_to_the_caller() {
    let facts = ExternNameFacts {
        node_submodule: true,
        perry_table: false,
        in_ffi_manifest: false,
        has_source_prefix: false,
        v8_fallback: false,
        imported_var: false,
    };
    let f = ffi(&[], "void", HirReturn::Other, vec![]);
    let mut b = FnBuilder::new();
    let callee = Expr::ExternFuncRef { name: "pipeline".to_string() };
    let res = try_lower_extern_func_call(&mut b, &callee, &facts, &link(), &meta(), &f, &vec![]);
    assert!(matches!(res, Ok(Some(ExternOutcome::Elsewhere(_)))));
    assert!(b.blocks[0].insts.is_empty());
}

fn table_facts() -> ExternNameFacts {
    ExternNameFacts {
        node_submodule: false,
        perry_table: true,
        in_ffi_manifest: false,
        has_source_prefix: false,
        v8_fallback: false,
        imported_var: false,
    }
}

#[test]
fn perry_system_import_calls_its_table_runtime() {
    let mut l = link();
    l.perry_table = Some(UiSig {
        method: "keychainGet",
        runtime: "perry_system_keychain_get",
        args: vec![UiArgKind::Str],
        ret: UiReturnKind::Str,
    });
    let f = ffi(&[], "void", HirReturn::Other, vec![false]);
    let mut b = FnBuilder::new();
    let callee = Expr::ExternFuncRef { name: "keychainGet".to_string() };
    let res = try_lower_extern_func_call(&mut b, &callee, &table_facts(), &l, &meta(), &f, &vec![ext("%k")]);
    assert!(matches!(res, Ok(Some(ExternOutcome::Lowered(_)))));
    assert_eq!(b.declares.len(), 1);
    assert_eq!(b.declares[0].name, "perry_system_keychain_get");
    assert_eq!(b.declares[0].params, vec![Ty::I64]);
    let is = &b.blocks[0].insts;
    assert!(matches!(&is[0], Inst::Call { dest: Some(0), callee, .. } if callee == "js_get_string_pointer_unified"));
    assert!(matches!(&is[1], Inst::Call { dest: Some(1), callee, .. } if callee == "perry_system_keychain_get"));
}

#[test]
fn perry_table_import_with_wrong_arity_yields_zero() {
    let mut l = link();
    l.perry_table = Some(UiSig {
        method: "isDarkMode",
        runtime: "perry_system_is_dark_mode",
        args: vec![],
        ret: UiReturnKind::F64,
    });
    let f = ffi(&[], "void", HirReturn::Other, vec![false]);
    let mut b = FnBuilder::new();
    let callee = Expr::ExternFuncRef { name: "isDarkMode".to_string() };
    let res = try_lower_extern_func_call(&mut b, &callee, &table_facts(), &l, &meta(), &f, &vec![ext("%x")]);
    assert!(matches!(res, Ok(Some(ExternOutcome::Lowered(Operand::Zero)))));
    assert!(b.blocks[0].insts.is_empty());
    assert!(b.declares.is_empty());
}
