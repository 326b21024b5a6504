use perry_lower_call::object_alloc::{inline_alloc_slots, EntrySlotCache};
use perry_lower_call::builtin_new::lower_builtin_new;
use perry_lower_call::fetch_ctor::{lower_new_fetch_object, FetchCtor, InitArg, InitProp};
use perry_lower_call::class_layout::{ClassInfo, FieldInfo};
use perry_lower_call::new_ctor::{bind_ctor_params, bind_new_this, emit_error_init, emit_imported_ctor_call, new_ctor_step, CtorStep};
use perry_lower_call::field_init::{field_init_chain, FieldInitMode};
use perry_lower_call::ir::{FnBuilder, Inst, JsTag, Operand, Ty};
use perry_lower_call::new_init::{error_like_ancestor, new_init_plan};
use perry_lower_call::object_alloc::{emit_inline_object_alloc, lower_new_alloc};
use perry_lower_call::web_ctor::{lower_new_headers, lower_new_stream, lower_new_websocket, StreamCtor};
use perry_lower_call::notification::{
    lower_notification_schedule, OptionProp, ScheduleError, ScheduleField, TriggerProp,
};

fn ext(s: &str) -> Operand {
    Operand::Ext(s.to_string())
}

fn class(name: &str, extends: Option<&str>, has_ctor: bool) -> ClassInfo {
    ClassInfo {
        name: name.to_string(),
        fields: vec![FieldInfo { name: format!("{}_f", name), computed: false }],
        extends: extends.map(|e| e.to_string()),
        has_ctor,
    }
}

fn chain_abc() -> Vec<ClassInfo> {
    vec![class("A", None, true), class("B", Some("A"), false), class("C", Some("B"), false)]
}

fn names(v: &[&str]) -> Vec<String> {
    v.iter().map(|s| s.to_string()).collect()
}

fn prop(key: &str, value: &str) -> OptionProp {
    OptionProp { key: key.to_string(), value: ext(value), inline: None }
}

fn tprop(key: &str, value: &str, literal: Option<&str>) -> TriggerProp {
    TriggerProp { key: key.to_string(), value: ext(value), literal: literal.map(|l| l.to_string()) }
}

fn options(trigger: Vec<TriggerProp>) -> Vec<OptionProp> {
    vec![
        prop("id", "%id"),
        prop("title", "%title"),
        prop("body", "%body"),
        OptionProp { key: "trigger".to_string(), value: ext("%t"), inline: Some(trigger) },
    ]
}

#[test]
fn interval_notification_calls_interval_scheduler() {
    let opts = options(vec![tprop("type", "%ty", Some("interval")), tprop("seconds", "%s", None)]);
    let mut b = FnBuilder::new();
    let res = lower_notification_schedule(&mut b, 1, Some(&opts));
    assert!(matches!(res, Ok(Operand::Zero)));
    let is = &b.blocks[0].insts;
    assert_eq!(is.len(), 4);
    assert!(matches!(&is[0], Inst::UnboxToI64 { dest: 0, val } if matches!(val, Operand::Ext(x) if x == "%id")));
    assert!(matches!(&is[2], Inst::UnboxToI64 { dest: 2, .. }));
    match &is[3] {
        Inst::Call { dest, ret, callee, args } => {
            assert_eq!(*dest, None);
            assert_eq!(*ret, Ty::Void);
            assert_eq!(callee, "perry_system_notification_schedule_interval");
            assert_eq!(args.len(), 5);
            assert!(matches!(args[0], (Ty::I64, Operand::Reg(0))));
            assert!(matches!(args[1], (Ty::I64, Operand::Reg(1))));
            assert!(matches!(args[2], (Ty::I64, Operand::Reg(2))));
            assert!(matches!(&args[3], (Ty::Double, Operand::Ext(x)) if x == "%s"));
            assert!(matches!(args[4], (Ty::Double, Operand::Tag(JsTag::False))));
        },
        other => panic!("unexpected {:?}", other),
    }
    assert_eq!(b.declares[0].params, vec![Ty::I64, Ty::I64, Ty::I64, Ty::Double, Ty::Double]);
    assert_eq!(b.next_reg, 3);
}

#[test]
fn location_notification_defaults_missing_numbers_to_zero() {
    let opts = options(vec![tprop("latitude", "%lat", None), tprop("type", "%ty", Some("location"))]);
    let mut b = FnBuilder::new();
    assert!(lower_notification_schedule(&mut b, 1, Some(&opts)).is_ok());
    match b.blocks[0].insts.last().unwrap() {
        Inst::Call { callee, args, .. } => {
            assert_eq!(callee, "perry_system_notification_schedule_location");
            assert_eq!(args.len(), 6);
            assert!(matches!(&args[3], (Ty::Double, Operand::Ext(x)) if x == "%lat"));
            assert!(matches!(args[4], (Ty::Double, Operand::Zero)));
            assert!(matches!(args[5], (Ty::Double, Operand::Zero)));
        },
        other => panic!("unexpected {:?}", other),
    }
}

#[test]
fn calendar_notification_passes_the_date() {
    let opts = options(vec![tprop("type", "%ty", Some("calendar")), tprop("date", "%d", None)]);
    let mut b = FnBuilder::new();
    assert!(lower_notification_schedule(&mut b, 1, Some(&opts)).is_ok());
    match b.blocks[0].insts.last().unwrap() {
        Inst::Call { callee, args, .. } => {
            assert_eq!(callee, "perry_system_notification_schedule_calendar");
            assert_eq!(args.len(), 4);
        },
        other => panic!("unexpected {:?}", other),
    }
}

#[test]
fn notification_errors_emit_nothing() {
    let good = options(vec![tprop("type", "%ty", Some("interval"))]);
    let mut b = FnBuilder::new();
    assert_eq!(lower_notification_schedule(&mut b, 2, Some(&good)).unwrap_err(), ScheduleError::ArgCount { nargs: 2 });
    assert_eq!(lower_notification_schedule(&mut b, 1, None).unwrap_err(), ScheduleError::NotInlineObject);

    let mut no_title = options(vec![tprop("type", "%ty", Some("interval"))]);
    no_title.remove(1);
    assert_eq!(lower_notification_schedule(&mut b, 1, Some(&no_title)).unwrap_err(), ScheduleError::MissingField(ScheduleField::Title));

    let weekly = options(vec![tprop("type", "%ty", Some("weekly"))]);
    assert_eq!(lower_notification_schedule(&mut b, 1, Some(&weekly)).unwrap_err(), ScheduleError::UnknownTriggerType("weekly".to_string()));

    let dynamic_type = options(vec![tprop("type", "%ty", None)]);
    assert_eq!(lower_notification_schedule(&mut b, 1, Some(&dynamic_type)).unwrap_err(), ScheduleError::TriggerTypeNotLiteral);

    let no_type = options(vec![tprop("seconds", "%s", None)]);
    assert_eq!(lower_notification_schedule(&mut b, 1, Some(&no_type)).unwrap_err(), ScheduleError::MissingField(ScheduleField::TriggerType));

    let mut bad_trigger = options(vec![]);
    bad_trigger[3].inline = None;
    assert_eq!(lower_notification_schedule(&mut b, 1, Some(&bad_trigger)).unwrap_err(), ScheduleError::TriggerNotInlineObject);

    assert!(b.blocks[0].insts.is_empty());
    assert!(b.declares.is_empty());
    assert_eq!(b.next_reg, 0);
}

#[test]
fn field_init_chain_modes() {
    let classes = chain_abc();
    assert_eq!(field_init_chain(&classes, "C", &FieldInitMode::All), names(&["A", "B", "C"]));
    assert_eq!(field_init_chain(&classes, "C", &FieldInitMode::AncestorsOnly), names(&["A", "B"]));
    assert_eq!(field_init_chain(&classes, "C", &FieldInitMode::SelfOnly), names(&["C"]));
    assert_eq!(field_init_chain(&classes, "C", &FieldInitMode::UpToInclusive("B".to_string())), names(&["A", "B"]));
    assert_eq!(field_init_chain(&classes, "C", &FieldInitMode::BetweenExclusiveTo("B".to_string())), names(&["C"]));
    assert!(field_init_chain(&classes, "C", &FieldInitMode::UpToInclusive("X".to_string())).is_empty());
    assert!(field_init_chain(&classes, "A", &FieldInitMode::AncestorsOnly).is_empty());
    assert!(field_init_chain(&classes, "Unknown", &FieldInitMode::All).is_empty());
}

#[test]
fn split_chain_runs_each_class_once() {
    let classes = chain_abc();
    for stop in ["A", "B", "C"] {
        let mut both = field_init_chain(&classes, "C", &FieldInitMode::UpToInclusive(stop.to_string()));
        both.extend(field_init_chain(&classes, "C", &FieldInitMode::BetweenExclusiveTo(stop.to_string())));
        assert_eq!(both, names(&["A", "B", "C"]));
    }
}

#[test]
fn init_plan_of_class_with_inherited_constructor() {
    let classes = chain_abc();
    let plan = new_init_plan(&classes, 2, false);
    assert_eq!(plan.before.len(), 1);
    assert!(matches!(&plan.before[0], FieldInitMode::UpToInclusive(s) if s == "A"));
    assert!(matches!(&plan.after, Some(FieldInitMode::BetweenExclusiveTo(s)) if s == "A"));
    let imported = new_init_plan(&classes, 2, true);
    assert!(imported.after.is_none());
}

#[test]
fn init_plan_of_base_class() {
    let classes = chain_abc();
    let plan = new_init_plan(&classes, 0, false);
    assert_eq!(plan.before.len(), 2);
    assert!(matches!(plan.before[0], FieldInitMode::AncestorsOnly));
    assert!(matches!(plan.before[1], FieldInitMode::SelfOnly));
    assert!(plan.after.is_none());
}

#[test]
fn error_like_ancestors() {
    let classes = vec![
        class("MyError", Some("Error"), false),
        class("Base", Some("TypeError"), false),
        class("Leaf", Some("Base"), false),
        class("Plain", None, true),
    ];
    assert_eq!(error_like_ancestor(&classes, 0).as_deref(), Some("Error"));
    assert_eq!(error_like_ancestor(&classes, 2).as_deref(), Some("TypeError"));
    assert_eq!(error_like_ancestor(&classes, 3), None);
}

#[test]
fn array_buffer_converts_size_to_i32() {
    let mut b = FnBuilder::new();
    let res = lower_builtin_new(&mut b, "ArrayBuffer", None, &vec![ext("%n")]);
    assert!(matches!(res, Some(Operand::Reg(2))));
    let is = &b.blocks[0].insts;
    assert!(matches!(&is[0], Inst::Fptosi { dest: 0, to: Ty::I32, .. }));
    match &is[1] {
        Inst::Call { callee, args, .. } => {
            assert_eq!(callee, "js_array_buffer_new");
            assert!(matches!(args[0], (Ty::I32, Operand::Reg(0))));
        },
        other => panic!("unexpected {:?}", other),
    }
    assert!(matches!(&is[2], Inst::NanboxPointer { dest: 2, val: Operand::Reg(1) }));
}

#[test]
fn new_array_with_several_arguments_is_not_builtin() {
    let mut b = FnBuilder::new();
    assert!(lower_builtin_new(&mut b, "Array", None, &vec![ext("%a"), ext("%b")]).is_none());
    assert!(lower_builtin_new(&mut b, "Array", None, &vec![]).is_some());
}

#[test]
fn inline_allocation_builds_fast_slow_and_merge_blocks() {
    let mut b = FnBuilder::new();
    let res = emit_inline_object_alloc(&mut b, Operand::Global("keys_slot".to_string()), Operand::Global("arena".to_string()), 7, 3, 2);
    assert!(matches!(res, Operand::Reg(16)));
    assert_eq!(b.blocks.len(), 4);
    assert_eq!(b.blocks[1].name, "alloc.fast");
    assert_eq!(b.blocks[2].name, "alloc.slow");
    assert_eq!(b.blocks[3].name, "alloc.merge");
    assert_eq!(b.current, 3);
    let entry = &b.blocks[0].insts;
    assert!(matches!(&entry[4], Inst::Add { dest: 4, ty: Ty::I64, rhs: Operand::Int(96), .. }));
    assert!(matches!(&entry[8], Inst::CondBr { if_true: 1, if_false: 2, .. }));
    assert!(matches!(&b.blocks[2].insts[0], Inst::Call { callee, .. } if callee == "js_inline_arena_slow_alloc"));
    let merge = &b.blocks[3].insts;
    assert!(matches!(&merge[1], Inst::Store { val: Operand::Int(w), .. } if *w == 2 | (2 << 8) | (96u64 << 32)));
    assert!(matches!(&merge[3], Inst::Store { val: Operand::Int(w), .. } if *w == 1 | (7u64 << 32)));
    assert!(matches!(&merge[5], Inst::Store { val: Operand::Int(w), .. } if *w == 3 | (2u64 << 32)));
    assert!(matches!(&merge[9], Inst::PtrToInt { dest: 16, val: Operand::Reg(15) }));
    assert_eq!(b.next_reg, 17);
}

#[test]
fn keyed_allocation_passes_packed_keys() {
    let classes = vec![
        ClassInfo { name: "P".to_string(), fields: vec![FieldInfo { name: "x".to_string(), computed: false }], extends: None, has_ctor: true },
        ClassInfo { name: "Q".to_string(), fields: vec![FieldInfo { name: "y".to_string(), computed: false }], extends: Some("P".to_string()), has_ctor: false },
    ];
    let mut b = FnBuilder::new();
    let res = lower_new_alloc(&mut b, &classes, 1, 5, 4, None);
    assert!(matches!(res, Operand::Reg(1)));
    assert_eq!(b.strings, vec!["x\0y\0".to_string()]);
    match &b.blocks[0].insts[0] {
        Inst::Call { callee, args, .. } => {
            assert_eq!(callee, "js_object_alloc_class_with_keys");
            assert!(matches!(args[0], (Ty::I32, Operand::Int(5))));
            assert!(matches!(args[1], (Ty::I32, Operand::Int(4))));
            assert!(matches!(args[2], (Ty::I32, Operand::Int(2))));
            assert!(matches!(args[3], (Ty::Ptr, Operand::StrBytes(0))));
            assert!(matches!(args[4], (Ty::I32, Operand::Int(4))));
        },
        other => panic!("unexpected {:?}", other),
    }
    assert!(matches!(&b.blocks[0].insts[1], Inst::NanboxPointer { dest: 1, val: Operand::Reg(0) }));
}

#[test]
fn readable_stream_takes_callbacks_and_high_water_mark() {
    let source = vec![("start".to_string(), ext("%start")), ("cancel".to_string(), ext("%cancel"))];
    let strategy = vec![("highWaterMark".to_string(), ext("%hwm"))];
    let mut b = FnBuilder::new();
    let res = lower_new_stream(&mut b, StreamCtor::Readable, Some(&source), Some(&strategy));
    assert!(matches!(res, Operand::Reg(0)));
    match &b.blocks[0].insts[0] {
        Inst::Call { callee, ret, args, .. } => {
            assert_eq!(callee, "js_readable_stream_new");
            assert_eq!(*ret, Ty::Double);
            assert!(matches!(&args[0].1, Operand::Ext(x) if x == "%start"));
            assert!(matches!(args[1].1, Operand::Tag(JsTag::Undefined)));
            assert!(matches!(&args[2].1, Operand::Ext(x) if x == "%cancel"));
            assert!(matches!(&args[3].1, Operand::Ext(x) if x == "%hwm"));
        },
        other => panic!("unexpected {:?}", other),
    }
}

#[test]
fn transform_stream_defaults() {
    let mut b = FnBuilder::new();
    lower_new_stream(&mut b, StreamCtor::Transform, None, None);
    match &b.blocks[0].insts[0] {
        Inst::Call { callee, args, .. } => {
            assert_eq!(callee, "js_transform_stream_new");
            assert_eq!(args.len(), 3);
            assert!(matches!(args[0].1, Operand::Tag(JsTag::Undefined)));
            assert!(matches!(args[2].1, Operand::Num(1)));
        },
        other => panic!("unexpected {:?}", other),
    }
}

#[test]
fn websocket_connects_and_boxes_the_id() {
    let mut b = FnBuilder::new();
    let res = lower_new_websocket(&mut b, Some(ext("%url")));
    assert!(matches!(res, Operand::Reg(2)));
    let is = &b.blocks[0].insts;
    assert!(matches!(&is[0], Inst::Call { callee, .. } if callee == "js_ws_connect_start"));
    assert!(matches!(&is[1], Inst::Fptosi { dest: 1, to: Ty::I64, val: Operand::Reg(0) }));
    assert!(matches!(&is[2], Inst::NanboxPointer { dest: 2, val: Operand::Reg(1) }));
    assert_eq!(b.declares[0].name, "js_ws_connect_start");
}

#[test]
fn headers_without_literal_init_are_empty() {
    let mut b = FnBuilder::new();
    let h = lower_new_headers(&mut b, None);
    assert!(matches!(h, Operand::Reg(0)));
    assert_eq!(b.blocks[0].insts.len(), 1);
}

fn dbg(i: &Inst) -> String {
    format!("{:?}", i)
}

fn str_ptr(dest: u64, val: &str) -> String {
    format!(
        "Call {{ dest: Some({}), ret: I64, callee: \"js_get_string_pointer_unified\", args: [(Double, {})] }}",
        dest, val
    )
}

fn init_prop(key: &str, value: &str, entries: Option<Vec<(Operand, Operand)>>) -> InitProp {
    InitProp { key: key.to_string(), value: ext(value), entries }
}

#[test]
fn response_literal_init_fills_status_text_and_headers() {
    let mut b = FnBuilder::new();
    let init = InitArg::Literal(vec![
        init_prop("status", "%st", None),
        init_prop("statusText", "%tx", None),
        init_prop("headers", "%h", Some(vec![(ext("%k"), ext("%v"))])),
        init_prop("other", "%o", None),
    ]);
    let res = lower_new_fetch_object(&mut b, FetchCtor::Response, Some(ext("%body")), &init);
    assert!(matches!(res, Operand::Reg(6)));
    let is = &b.blocks[0].insts;
    assert_eq!(is.len(), 7);
    assert_eq!(dbg(&is[0]), str_ptr(0, "Ext(\"%body\")"));
    assert_eq!(dbg(&is[1]), str_ptr(1, "Ext(\"%tx\")"));
    assert!(matches!(&is[2], Inst::Call { dest: Some(2), callee, args, .. } if callee == "js_headers_new" && args.is_empty()));
    assert_eq!(dbg(&is[3]), str_ptr(3, "Ext(\"%k\")"));
    assert_eq!(dbg(&is[4]), str_ptr(4, "Ext(\"%v\")"));
    assert!(matches!(&is[5], Inst::Call { dest: Some(5), callee, .. } if callee == "js_headers_set"));
    assert_eq!(
        dbg(&is[6]),
        "Call { dest: Some(6), ret: Double, callee: \"js_response_new\", args: [(I64, Reg(0)), (Double, Ext(\"%st\")), (I64, Reg(1)), (Double, Reg(2))] }"
    );
    assert_eq!(b.next_reg, 7);
}

#[test]
fn response_later_property_overrides_earlier() {
    let mut b = FnBuilder::new();
    let init = InitArg::Literal(vec![init_prop("status", "%a", None), init_prop("status", "%b", None)]);
    lower_new_fetch_object(&mut b, FetchCtor::Response, None, &init);
    let is = &b.blocks[0].insts;
    assert_eq!(is.len(), 1);
    assert_eq!(
        dbg(&is[0]),
        "Call { dest: Some(0), ret: Double, callee: \"js_response_new\", args: [(I64, Int(0)), (Double, Ext(\"%b\")), (I64, Int(0)), (Double, Zero)] }"
    );
}

#[test]
fn response_runtime_init_reads_fields_by_name() {
    let mut b = FnBuilder::new();
    let res = lower_new_fetch_object(&mut b, FetchCtor::Response, None, &InitArg::Value(ext("%opts")));
    assert!(matches!(res, Operand::Reg(11)));
    let is = &b.blocks[0].insts;
    assert_eq!(is.len(), 12);
    assert_eq!(dbg(&is[0]), "UnboxToI64 { dest: 0, val: Ext(\"%opts\") }");
    assert_eq!(dbg(&is[1]), "Load { dest: 1, ty: Double, ptr: StrHandle(0) }");
    assert_eq!(dbg(&is[2]), "UnboxToI64 { dest: 2, val: Reg(1) }");
    assert_eq!(
        dbg(&is[3]),
        "Call { dest: Some(3), ret: Double, callee: \"js_object_get_field_by_name_f64\", args: [(I64, Reg(0)), (I64, Reg(2))] }"
    );
    assert_eq!(dbg(&is[4]), "Load { dest: 4, ty: Double, ptr: StrHandle(1) }");
    assert_eq!(dbg(&is[7]), str_ptr(7, "Reg(6)"));
    assert_eq!(dbg(&is[8]), "Load { dest: 8, ty: Double, ptr: StrHandle(2) }");
    assert_eq!(
        dbg(&is[11]),
        "Call { dest: Some(11), ret: Double, callee: \"js_response_new\", args: [(I64, Int(0)), (Double, Reg(3)), (I64, Reg(7)), (Double, Reg(10))] }"
    );
    assert_eq!(b.strings, vec!["status".to_string(), "statusText".to_string(), "headers".to_string()]);
}

#[test]
fn request_literal_init_takes_method_and_body_pointers() {
    let mut b = FnBuilder::new();
    let init = InitArg::Literal(vec![init_prop("method", "%m", None), init_prop("body", "%b", None), init_prop("headers", "%h", None)]);
    let res = lower_new_fetch_object(&mut b, FetchCtor::Request, Some(ext("%url")), &init);
    assert!(matches!(res, Operand::Reg(3)));
    let is = &b.blocks[0].insts;
    assert_eq!(is.len(), 4);
    assert_eq!(dbg(&is[0]), str_ptr(0, "Ext(\"%url\")"));
    assert_eq!(dbg(&is[1]), str_ptr(1, "Ext(\"%m\")"));
    assert_eq!(dbg(&is[2]), str_ptr(2, "Ext(\"%b\")"));
    assert_eq!(
        dbg(&is[3]),
        "Call { dest: Some(3), ret: Double, callee: \"js_request_new\", args: [(I64, Reg(0)), (I64, Reg(1)), (I64, Reg(2)), (Double, Ext(\"%h\"))] }"
    );
}

#[test]
fn request_with_runtime_init_keeps_defaults() {
    let mut b = FnBuilder::new();
    lower_new_fetch_object(&mut b, FetchCtor::Request, Some(ext("%url")), &InitArg::Value(ext("%o")));
    let is = &b.blocks[0].insts;
    assert_eq!(is.len(), 2);
    assert_eq!(
        dbg(&is[1]),
        "Call { dest: Some(1), ret: Double, callee: \"js_request_new\", args: [(I64, Reg(0)), (I64, Int(0)), (I64, Int(0)), (Double, Zero)] }"
    );
    assert!(b.strings.is_empty());
}

fn ctor_class(name: &str, extends: Option<&str>, has_ctor: bool, fields: usize) -> ClassInfo {
    ClassInfo {
        name: name.to_string(),
        fields: (0..fields).map(|k| FieldInfo { name: format!("f{}", k), computed: false }).collect(),
        extends: extends.map(|e| e.to_string()),
        has_ctor,
    }
}

fn ctor_entry(class: &str, sym: &str, n: usize) -> (String, String, usize) {
    (class.to_string(), sym.to_string(), n)
}

#[test]
fn ctor_step_prefers_own_then_inherited_constructor() {
    let classes = vec![
        ctor_class("A", None, true, 1),
        ctor_class("B", Some("A"), false, 0),
        ctor_class("C", Some("B"), false, 1),
    ];
    let ctors = vec![];
    assert!(matches!(new_ctor_step(&classes, &ctors, 0), CtorStep::Own));
    assert!(matches!(new_ctor_step(&classes, &ctors, 2), CtorStep::Inherited(0)));
    assert!(matches!(new_ctor_step(&classes, &ctors, 1), CtorStep::Inherited(0)));
}

#[test]
fn ctor_step_initializes_error_subclasses_unless_imported_ctor_is_real() {
    let classes = vec![ctor_class("MyErr", Some("TypeError"), false, 0), ctor_class("Sub", Some("MyErr"), false, 0)];
    assert!(matches!(new_ctor_step(&classes, &vec![], 1), CtorStep::ErrorInit(k) if k == "TypeError"));
    let ctors = vec![ctor_entry("Sub", "Sub_ctor", 2)];
    assert!(matches!(new_ctor_step(&classes, &ctors, 1), CtorStep::ImportedCall(c, 2) if c == "Sub_ctor"));
    let synthesized = vec![ctor_entry("Sub", "Sub_ctor", 0)];
    assert!(matches!(new_ctor_step(&classes, &synthesized, 1), CtorStep::ErrorInit(k) if k == "TypeError"));
}

#[test]
fn ctor_step_walks_to_ancestor_with_real_imported_ctor() {
    let classes = vec![
        ctor_class("Column", None, false, 0),
        ctor_class("PgColumn", Some("Column"), false, 0),
        ctor_class("PgSerial", Some("PgColumn"), false, 0),
        ctor_class("Plain", None, false, 0),
    ];
    let ctors = vec![ctor_entry("Column", "Column_ctor", 2), ctor_entry("PgSerial", "PgSerial_ctor", 0)];
    assert!(matches!(new_ctor_step(&classes, &ctors, 2), CtorStep::ImportedCall(c, 2) if c == "Column_ctor"));
    assert!(matches!(new_ctor_step(&classes, &ctors, 3), CtorStep::NoBody));
}

#[test]
fn leaf_with_fields_and_synthesized_ctor_stops_the_walk() {
    let classes = vec![ctor_class("Base", None, false, 0), ctor_class("Leaf", Some("Base"), false, 2)];
    let ctors = vec![ctor_entry("Base", "Base_ctor", 1), ctor_entry("Leaf", "Leaf_ctor", 0)];
    assert!(matches!(new_ctor_step(&classes, &ctors, 1), CtorStep::ImportedCall(c, 0) if c == "Leaf_ctor"));
}

#[test]
fn this_and_parameter_slots_are_hoisted_and_stored() {
    let mut b = FnBuilder::new();
    let this_slot = bind_new_this(&mut b, ext("%obj"));
    assert_eq!(this_slot, 0);
    let slots = bind_ctor_params(&mut b, 3, &vec![ext("%a")], true);
    assert_eq!(slots, vec![1, 2, 3]);
    let allocas: Vec<String> = b.allocas.iter().map(dbg).collect();
    assert_eq!(allocas, vec![
        "AllocaSlot { dest: 0, ty: Double }",
        "AllocaSlot { dest: 1, ty: Double }",
        "AllocaSlot { dest: 2, ty: Double }",
        "AllocaSlot { dest: 3, ty: Double }",
    ]);
    let is: Vec<String> = b.blocks[0].insts.iter().map(dbg).collect();
    assert_eq!(is, vec![
        "Store { ty: Double, val: Ext(\"%obj\"), ptr: Reg(0) }",
        "Store { ty: Double, val: Ext(\"%a\"), ptr: Reg(1) }",
        "Store { ty: Double, val: Tag(Undefined), ptr: Reg(2) }",
        "Store { ty: Double, val: Tag(Undefined), ptr: Reg(3) }",
    ]);
    let own = bind_ctor_params(&mut b, 3, &vec![ext("%x")], false);
    assert_eq!(own, vec![4]);
}

#[test]
fn error_init_sets_message_and_name() {
    let mut b = FnBuilder::new();
    emit_error_init(&mut b, 9, Some(ext("%msg")), "TypeError");
    let is: Vec<String> = b.blocks[0].insts.iter().map(dbg).collect();
    assert_eq!(is, vec![
        "Load { dest: 0, ty: Double, ptr: Reg(9) }",
        "UnboxToI64 { dest: 1, val: Reg(0) }",
        "Load { dest: 2, ty: Double, ptr: StrHandle(0) }",
        "UnboxToI64 { dest: 3, val: Reg(2) }",
        "Call { dest: None, ret: Void, callee: \"js_object_set_field_by_name\", args: [(I64, Reg(1)), (I64, Reg(3)), (Double, Ext(\"%msg\"))] }",
        "Load { dest: 4, ty: Double, ptr: StrHandle(1) }",
        "UnboxToI64 { dest: 5, val: Reg(4) }",
        "Load { dest: 6, ty: Double, ptr: StrHandle(2) }",
        "Call { dest: None, ret: Void, callee: \"js_object_set_field_by_name\", args: [(I64, Reg(1)), (I64, Reg(5)), (Double, Reg(6))] }",
    ]);
    assert_eq!(b.strings, vec!["message".to_string(), "name".to_string(), "TypeError".to_string()]);
    assert_eq!(b.next_reg, 7);
}

#[test]
fn error_init_without_arguments_sets_only_the_name() {
    let mut b = FnBuilder::new();
    emit_error_init(&mut b, 3, None, "Error");
    assert_eq!(b.blocks[0].insts.len(), 6);
    assert_eq!(b.strings, vec!["name".to_string(), "Error".to_string()]);
    assert_eq!(b.next_reg, 5);
}

#[test]
fn imported_ctor_call_pads_missing_arguments() {
    let mut b = FnBuilder::new();
    emit_imported_ctor_call(&mut b, "Column_ctor", 3, ext("%obj"), &vec![ext("%t")]);
    assert_eq!(b.declares.len(), 1);
    assert_eq!(b.declares[0].name, "Column_ctor");
    assert_eq!(b.declares[0].params.len(), 4);
    assert_eq!(
        dbg(&b.blocks[0].insts[0]),
        "Call { dest: None, ret: Void, callee: \"Column_ctor\", args: [(Double, Ext(\"%obj\")), (Double, Ext(\"%t\")), (Double, Tag(Undefined)), (Double, Tag(Undefined))] }"
    );
}

#[test]
fn inline_allocation_slots_are_set_up_once_per_function_and_class() {
    let mut b = FnBuilder::new();
    let mut cache = EntrySlotCache { arena: None, keys: vec![] };
    let s1 = inline_alloc_slots(&mut b, &mut cache, "A", "perry_class_keys_A");
    assert!(matches!(s1.arena_slot, Operand::Reg(0)));
    assert!(matches!(s1.keys_slot, Operand::Reg(2)));
    assert_eq!(b.allocas.len(), 6);
    assert!(matches!(&b.allocas[1], Inst::Call { callee, .. } if callee == "js_inline_arena_state"));
    let s2 = inline_alloc_slots(&mut b, &mut cache, "A", "perry_class_keys_A");
    assert!(matches!(s2.keys_slot, Operand::Reg(2)));
    assert_eq!(b.allocas.len(), 6);
    let s3 = inline_alloc_slots(&mut b, &mut cache, "B", "perry_class_keys_B");
    assert!(matches!(s3.arena_slot, Operand::Reg(0)));
    assert!(matches!(s3.keys_slot, Operand::Reg(4)));
    assert_eq!(b.allocas.len(), 9);
}
