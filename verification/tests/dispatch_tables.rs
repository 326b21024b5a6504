use perry_lower_call::atomics::atomics_op;
use perry_lower_call::buffer_read::classify_buffer_numeric_read;
use perry_lower_call::builtin_new::{arm_mismatches_source, builtin_ctor, CtorArg};
use perry_lower_call::console::console_call_plan;
use perry_lower_call::extern_call::{extern_builtin, extern_call_path, ExternBuiltin, ExternCallPath, ExternNameFacts};
use perry_lower_call::native_module::{arg_kind_tag, native_module_lookup, ret_kind_tag};
use perry_lower_call::native_table::{NativeArgKind, NativeRetKind};
use perry_lower_call::promise::{promise_static_method, PromiseStatic};
use perry_lower_call::receiver_methods::{encoding_tag, receiver_route, string_only_method, ReceiverRoute, ReceiverTypes};

fn plain_receiver() -> ReceiverTypes {
    ReceiverTypes {
        recv_is_string: false,
        recv_is_array: false,
        recv_is_buffer: false,
        arg0_is_string: false,
        arg1_is_closure: false,
        user_to_string: false,
    }
}

#[test]
fn redis_module_looks_up_as_ioredis() {
    let a = native_module_lookup("redis", true, "get", None).expect("redis.get is in the table");
    let b = native_module_lookup("ioredis", true, "get", None).expect("ioredis.get is in the table");
    assert_eq!(a.runtime, "js_ioredis_get");
    assert_eq!(a.runtime, b.runtime);
    assert_eq!(a.module, "ioredis");
}

#[test]
fn redis_create_client_is_the_ioredis_constructor() {
    let a = native_module_lookup("redis", false, "createClient", None).expect("redis.createClient");
    assert_eq!(a.runtime, "js_ioredis_new");
}

#[test]
fn class_filtered_row_wins_for_its_class() {
    let pool = native_module_lookup("pg", true, "query", Some("Pool")).expect("pool query");
    assert_eq!(pool.runtime, "js_pg_pool_query");
    let client = native_module_lookup("pg", true, "query", Some("Client")).expect("client query");
    assert_eq!(client.runtime, "js_pg_client_query");
    let untyped = native_module_lookup("pg", true, "query", None).expect("untyped query");
    assert_eq!(untyped.runtime, "js_pg_client_query");
}

#[test]
fn unknown_native_method_is_not_found() {
    assert!(native_module_lookup("pg", true, "noSuchMethod", None).is_none());
    assert!(native_module_lookup("no-such-module", false, "get", None).is_none());
}

#[test]
fn native_kind_tags() {
    assert_eq!(arg_kind_tag(&NativeArgKind::F64), "NA_F64");
    assert_eq!(arg_kind_tag(&NativeArgKind::StrPtr), "NA_STR");
    assert_eq!(ret_kind_tag(&NativeRetKind::F64), "NR_F64");
    assert_eq!(ret_kind_tag(&NativeRetKind::I32Void), "NR_I32");
}

#[test]
fn buffer_read_accessors() {
    let s = classify_buffer_numeric_read("readInt32BE").expect("readInt32BE");
    assert_eq!((s.width_bytes, s.swap, s.signed, s.is_float), (4, true, true, false));
    let u = classify_buffer_numeric_read("readUint16LE").expect("readUint16LE");
    assert_eq!((u.width_bytes, u.swap, u.signed, u.is_float), (2, false, false, false));
    let d = classify_buffer_numeric_read("readDoubleLE").expect("readDoubleLE");
    assert_eq!((d.width_bytes, d.swap, d.is_float), (8, false, true));
    assert!(classify_buffer_numeric_read("readBigInt64LE").is_none());
}

#[test]
fn atomics_operations_and_arity() {
    assert_eq!(atomics_op("load"), Some(("js_atomics_load", 2)));
    assert_eq!(atomics_op("add"), Some(("js_atomics_add", 3)));
    assert_eq!(atomics_op("compareExchange"), Some(("js_atomics_compare_exchange", 4)));
    assert_eq!(atomics_op("wait"), None);
}

#[test]
fn console_methods_have_plans() {
    assert!(console_call_plan("log", 2).is_some());
    assert!(console_call_plan("timeEnd", 1).is_some());
    assert!(console_call_plan("assert", 2).is_some());
    assert!(console_call_plan("frobnicate", 1).is_none());
}

#[test]
fn promise_static_methods() {
    assert_eq!(promise_static_method("resolve"), Some(PromiseStatic::Resolve));
    assert_eq!(promise_static_method("allSettled"), Some(PromiseStatic::Combinator));
    assert_eq!(promise_static_method("withResolvers"), Some(PromiseStatic::WithResolvers));
    assert_eq!(promise_static_method("then"), None);
}

#[test]
fn timer_builtins_by_name() {
    assert!(matches!(extern_builtin("setTimeout", 2), Some(ExternBuiltin::SetTimeout)));
    assert!(extern_builtin("myOwnFunction", 1).is_none());
}

#[test]
fn extern_call_path_order() {
    let facts = ExternNameFacts {
        node_submodule: false,
        perry_table: false,
        in_ffi_manifest: false,
        has_source_prefix: true,
        v8_fallback: false,
        imported_var: false,
    };
    assert_eq!(extern_call_path("js_gc_stats", 0, &facts), ExternCallPath::RuntimeBuiltin);
    assert_eq!(extern_call_path("helper", 1, &facts), ExternCallPath::CrossModule);
    let var = ExternNameFacts { imported_var: true, ..facts };
    assert_eq!(extern_call_path("helper", 1, &var), ExternCallPath::ImportedVar);
    let unresolved = ExternNameFacts { has_source_prefix: false, ..facts };
    assert_eq!(extern_call_path("default", 0, &unresolved), ExternCallPath::UnresolvedDefault);
    assert_eq!(extern_call_path("sqlite3_open", 1, &unresolved), ExternCallPath::NativeFfi);
}

#[test]
fn builtin_constructor_table() {
    let re = builtin_ctor("RegExp", 2).expect("RegExp");
    assert_eq!(re.runtime, "js_regexp_new");
    assert_eq!(re.args, vec![CtorArg::HandleOrZero(0), CtorArg::HandleOrZero(1)]);
    let p0 = builtin_ctor("Promise", 0).expect("Promise");
    assert_eq!(p0.runtime, "js_promise_new");
    let p1 = builtin_ctor("Promise", 1).expect("Promise(executor)");
    assert_eq!(p1.runtime, "js_promise_new_with_executor");
    let ws = builtin_ctor("WebSocketServer", 1).expect("WebSocketServer");
    assert!(ws.declared);
    assert!(builtin_ctor("MyClass", 0).is_none());
}

#[test]
fn imported_name_shadows_builtin_only_from_other_packages() {
    assert!(!arm_mismatches_source("Pool", Some("pg")));
    assert!(arm_mismatches_source("Pool", Some("generic-pool")));
    assert!(!arm_mismatches_source("Redis", Some("redis")));
    assert!(!arm_mismatches_source("Pool", None));
    assert!(!arm_mismatches_source("EventEmitter", Some("eventemitter3")));
}

#[test]
fn number_formatters_route_on_plain_receivers() {
    let f = plain_receiver();
    assert_eq!(receiver_route("toFixed", 1, f), ReceiverRoute::ToFixed);
    assert_eq!(receiver_route("toPrecision", 1, f), ReceiverRoute::ToPrecision);
    assert_eq!(receiver_route("toExponential", 0, f), ReceiverRoute::ToExponential);
    let s = ReceiverTypes { recv_is_string: true, ..f };
    assert_eq!(receiver_route("toFixed", 1, s), ReceiverRoute::StringMethod);
}

#[test]
fn to_string_variants_route() {
    let f = plain_receiver();
    let enc = ReceiverTypes { arg0_is_string: true, ..f };
    assert_eq!(receiver_route("toString", 1, enc), ReceiverRoute::ToStringEncoding);
    assert_eq!(receiver_route("toString", 1, f), ReceiverRoute::ToStringRadix);
    assert_eq!(receiver_route("toString", 0, f), ReceiverRoute::ToStringAny);
    let user = ReceiverTypes { user_to_string: true, ..f };
    assert_eq!(receiver_route("toString", 0, user), ReceiverRoute::Other);
}

#[test]
fn string_only_methods_route_untyped_receivers() {
    let f = plain_receiver();
    assert_eq!(receiver_route("split", 1, f), ReceiverRoute::StringMethod);
    let buf = ReceiverTypes { recv_is_buffer: true, ..f };
    assert_eq!(receiver_route("includes", 1, buf), ReceiverRoute::Other);
    let arr = ReceiverTypes { recv_is_array: true, ..f };
    assert_eq!(receiver_route("split", 1, arr), ReceiverRoute::ArrayMethod);
    assert!(string_only_method("slice", 1, false));
    assert!(!string_only_method("slice", 0, false));
    assert!(string_only_method("replace", 2, true));
    assert!(!string_only_method("replace", 2, false));
    assert!(string_only_method("endsWith", 2, false));
}

#[test]
fn encoding_tags_ignore_ascii_case() {
    assert_eq!(encoding_tag("hex"), 1);
    assert_eq!(encoding_tag("HEX"), 1);
    assert_eq!(encoding_tag("Base64"), 2);
    assert_eq!(encoding_tag("base64url"), 2);
    assert_eq!(encoding_tag("utf-8"), 0);
    assert_eq!(encoding_tag("ucs2"), 0);
    assert_eq!(encoding_tag("hëx"), 0);
}

#[test]
fn buffer_read_width_follows_the_name() {
    for (m, w) in [("readUInt8", 1), ("readInt8", 1), ("readUInt16BE", 2), ("readInt16LE", 2), ("readUInt32LE", 4), ("readFloatBE", 4), ("readDoubleBE", 8)] {
        assert_eq!(classify_buffer_numeric_read(m).expect(m).width_bytes, w);
    }
}
