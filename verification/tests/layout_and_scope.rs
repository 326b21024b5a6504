use std::collections::HashSet;

use perry_lower_call::call_route::{call_route, CallFacts, CallRoute};
use perry_lower_call::class_layout::{
    class_packed_keys, find_class_exec, gc_header_word_exec, inherited_ctor_class, object_total_size_exec,
    pair_word_exec, total_field_count_exec, ClassInfo, FieldInfo,
};
use perry_lower_call::closure_scope::{collect_closure_introduced_ids, find_outer_writes_stmt};
use perry_lower_call::hir::{Expr, Stmt};
use perry_lower_call::method_dispatch::ReceiverFacts;
use perry_lower_call::method_resolution::{dispatch_implementors, needs_dynamic_dispatch, resolve_method};
use perry_lower_call::namespace_call::ImportTables;
use perry_lower_call::receiver_methods::receiver_has_user_method;

fn class(name: &str, fields: &[&str], extends: Option<&str>, has_ctor: bool) -> ClassInfo {
    ClassInfo {
        name: name.to_string(),
        fields: fields.iter().map(|f| FieldInfo { name: f.to_string(), computed: false }).collect(),
        extends: extends.map(|e| e.to_string()),
        has_ctor,
    }
}

fn no_imports() -> ImportTables {
    ImportTables {
        namespace_imports: vec![],
        namespace_v8: vec![],
        member_prefixes: vec![],
        function_prefixes: vec![],
        function_v8: vec![],
        imported_vars: vec![],
    }
}

fn facts() -> CallFacts {
    CallFacts {
        index_is_string: false,
        local_is_function: false,
        receiver_dispatched: false,
        receiver: ReceiverFacts { class_name: None, class_known: false },
        global_ctor: None,
    }
}

#[test]
fn small_objects_take_ninety_six_bytes() {
    assert_eq!(object_total_size_exec(0), 96);
    assert_eq!(object_total_size_exec(8), 96);
    assert_eq!(object_total_size_exec(10), 8 + 24 + 80);
}

#[test]
fn header_words_pack_their_fields() {
    assert_eq!(gc_header_word_exec(96), 2 | (2 << 8) | (96u64 << 32));
    assert_eq!(pair_word_exec(1, 7), 1 | (7u64 << 32));
    assert_eq!(pair_word_exec(u32::MAX, 0), u32::MAX as u64);
}

#[test]
fn subclass_counts_and_keys_include_parent_fields() {
    let classes = vec![class("Base", &["a", "b"], None, true), class("Derived", &["c"], Some("Base"), false)];
    let d = find_class_exec(&classes, "Derived").unwrap();
    assert_eq!(d, 1);
    assert_eq!(total_field_count_exec(&classes, d), 3);
    assert_eq!(class_packed_keys(&classes, d), "a\0b\0c\0");
    assert_eq!(class_packed_keys(&classes, 0), "a\0b\0");
    assert_eq!(inherited_ctor_class(&classes, d), Some(0));
}

#[test]
fn fieldless_class_without_constructor_gets_default_slots() {
    let classes = vec![class("Imported", &[], None, false)];
    assert_eq!(total_field_count_exec(&classes, 0), 32);
}

#[test]
fn to_string_found_on_an_ancestor() {
    let classes = vec![class("A", &[], Some("B"), true), class("B", &[], None, true), class("C", &[], None, true)];
    let methods = vec![("B".to_string(), "toString".to_string())];
    assert!(receiver_has_user_method(&classes, &methods, Some("A"), "toString"));
    assert!(receiver_has_user_method(&classes, &methods, Some("B"), "toString"));
    assert!(!receiver_has_user_method(&classes, &methods, Some("C"), "toString"));
    assert!(!receiver_has_user_method(&classes, &methods, None, "toString"));
}

#[test]
fn outer_writes_skip_the_closures_own_locals() {
    // let 2 = (1 = 5); 2 = 1; 3++
    let body = Stmt::If {
        condition: Expr::Other,
        then_branch: vec![
            Stmt::Let { id: 2, init: Some(Expr::LocalSet(1, Box::new(Expr::Other))) },
            Stmt::Expr(Expr::LocalSet(2, Box::new(Expr::LocalGet(1)))),
        ],
        else_branch: Some(vec![Stmt::Expr(Expr::Update { id: 3 })]),
    };
    let mut inner: HashSet<u32> = HashSet::new();
    collect_closure_introduced_ids(&body, &mut inner);
    assert!(inner.contains(&2));
    assert!(!inner.contains(&1));
    let mut out = Vec::new();
    find_outer_writes_stmt(&body, &inner, &mut out);
    assert_eq!(out, vec![1, 3]);
}

#[test]
fn writes_only_to_own_locals_report_nothing() {
    let body = Stmt::Let { id: 4, init: Some(Expr::LocalSet(4, Box::new(Expr::Other))) };
    let mut inner: HashSet<u32> = HashSet::new();
    inner.insert(4);
    let mut out = Vec::new();
    find_outer_writes_stmt(&body, &inner, &mut out);
    assert!(out.is_empty());
}

#[test]
fn call_routes_by_callee_shape() {
    let t = no_imports();
    let f = facts();
    assert_eq!(call_route(&Expr::CurrentStepClosure, 1, &t, &f), CallRoute::CurrentStepClosure);
    assert_eq!(call_route(&Expr::FuncRef(3), 0, &t, &f), CallRoute::FuncRef);
    assert_eq!(call_route(&Expr::ExternFuncRef { name: "helper".to_string() }, 0, &t, &f), CallRoute::ExternFunc);
    assert_eq!(call_route(&Expr::LocalGet(1), 0, &t, &f), CallRoute::ClosureFallthrough);
    let typed = CallFacts { local_is_function: true, ..facts() };
    assert_eq!(call_route(&Expr::LocalGet(1), 0, &t, &typed), CallRoute::ClosureTypedLocal);
}

#[test]
fn global_receivers_route_to_console_and_promise() {
    let t = no_imports();
    let log = Expr::PropertyGet { object: Box::new(Expr::GlobalGet(0)), property: "log".to_string() };
    assert_eq!(call_route(&log, 1, &t, &facts()), CallRoute::Console);
    let resolve = Expr::PropertyGet { object: Box::new(Expr::GlobalGet(1)), property: "resolve".to_string() };
    let promise = CallFacts { global_ctor: Some("Promise".to_string()), ..facts() };
    assert_eq!(call_route(&resolve, 1, &t, &promise), CallRoute::PromiseStatic);
    // an unknown method on a global is called as a closure value
    let other = Expr::PropertyGet { object: Box::new(Expr::GlobalGet(1)), property: "frob".to_string() };
    assert_eq!(call_route(&other, 0, &t, &facts()), CallRoute::ClosureFallthrough);
}

#[test]
fn method_on_untyped_object_uses_native_dispatch() {
    let t = no_imports();
    let m = Expr::PropertyGet { object: Box::new(Expr::LocalGet(5)), property: "get".to_string() };
    assert_eq!(call_route(&m, 1, &t, &facts()), CallRoute::NativeMethod);
    let known = CallFacts {
        receiver: ReceiverFacts { class_name: Some("Cache".to_string()), class_known: true },
        ..facts()
    };
    assert_eq!(call_route(&m, 1, &t, &known), CallRoute::ClosureFallthrough);
    let proto = Expr::PropertyGet { object: Box::new(Expr::LocalGet(5)), property: "hasOwnProperty".to_string() };
    assert_eq!(call_route(&proto, 1, &t, &known), CallRoute::NativeMethod);
}

#[test]
fn string_keyed_index_call_and_namespace_member() {
    let mut t = no_imports();
    let idx = Expr::IndexGet { object: Box::new(Expr::LocalGet(1)), index: Box::new(Expr::Str("m".to_string())) };
    let keyed = CallFacts { index_is_string: true, ..facts() };
    assert_eq!(call_route(&idx, 0, &t, &keyed), CallRoute::StrKeyMethod);
    let member = Expr::PropertyGet {
        object: Box::new(Expr::ExternFuncRef { name: "R".to_string() }),
        property: "sum".to_string(),
    };
    t.namespace_imports.push("R".to_string());
    t.function_prefixes.push(("sum".to_string(), "ramda".to_string()));
    assert_eq!(call_route(&member, 1, &t, &facts()), CallRoute::NamespaceMember);
}

fn method_table() -> Vec<(String, String, String)> {
    vec![
        ("A".to_string(), "m".to_string(), "perry_method_A__m".to_string()),
        ("C".to_string(), "m".to_string(), "perry_method_C__m".to_string()),
    ]
}

fn abc_classes() -> Vec<ClassInfo> {
    vec![
        class("A", &[], None, true),
        class("B", &[], Some("A"), false),
        class("C", &[], Some("B"), false),
        class("X", &[], None, true),
    ]
}

#[test]
fn methods_resolve_to_the_nearest_definition() {
    let classes = abc_classes();
    let methods = method_table();
    assert_eq!(resolve_method(&classes, &methods, "C", "m").as_deref(), Some("perry_method_C__m"));
    assert_eq!(resolve_method(&classes, &methods, "B", "m").as_deref(), Some("perry_method_A__m"));
    assert_eq!(resolve_method(&classes, &methods, "X", "m"), None);
    assert_eq!(resolve_method(&classes, &methods, "Unknown", "m"), None);
}

#[test]
fn dispatch_tower_lists_every_class_answering_the_method() {
    let classes = abc_classes();
    let methods = method_table();
    let ids = vec![("A".to_string(), 1u32), ("B".to_string(), 2), ("C".to_string(), 3), ("X".to_string(), 4), ("A".to_string(), 1)];
    let tower = dispatch_implementors(&classes, &ids, &methods, "m");
    assert_eq!(
        tower,
        vec![
            (1, "perry_method_A__m".to_string()),
            (2, "perry_method_A__m".to_string()),
            (3, "perry_method_C__m".to_string()),
        ]
    );
    assert!(dispatch_implementors(&classes, &ids, &methods, "other").is_empty());
}

#[test]
fn dynamic_dispatch_only_for_unknown_user_receivers() {
    let classes = abc_classes();
    assert!(!needs_dynamic_dispatch(true, None, &classes));
    assert!(needs_dynamic_dispatch(false, None, &classes));
    assert!(!needs_dynamic_dispatch(false, Some("Map"), &classes));
    assert!(!needs_dynamic_dispatch(false, Some("A"), &classes));
    assert!(needs_dynamic_dispatch(false, Some("SomeInterface"), &classes));
}

#[test]
fn writes_inside_sequences_objects_and_new_args_are_reported() {
    let inner: HashSet<u32> = HashSet::new();
    let mut out = vec![];
    let body = Stmt::Expr(Expr::Sequence(vec![Expr::LocalSet(7, Box::new(Expr::Other))]));
    find_outer_writes_stmt(&body, &inner, &mut out);
    assert_eq!(out, vec![7]);
    let obj = Stmt::Expr(Expr::Object(vec![("k".to_string(), Expr::Update { id: 8 })]));
    find_outer_writes_stmt(&obj, &inner, &mut out);
    let new = Stmt::Expr(Expr::New { class_name: "C".to_string(), args: vec![Expr::LocalSet(9, Box::new(Expr::Other))] });
    find_outer_writes_stmt(&new, &inner, &mut out);
    assert_eq!(out, vec![7, 8, 9]);
}
