//! The static dispatch table for native stdlib modules (fastify, mysql2, ws,
//! pg, ioredis, mongodb, better-sqlite3, ...). Each row maps
//! `(module, has_receiver, method)` to a runtime function, with per-argument
//! coercion rules and return-value boxing.
//!
//! The receiver (when `has_receiver` is set) is always NaN-unboxed to an i64
//! pointer and passed as the first argument.

use vstd::prelude::*;

verus! {

/// How each argument is coerced before it is passed to the runtime function.
#[derive(Copy, Clone, Debug, PartialEq, Eq, Structural)]
pub enum NativeArgKind {
    /// NaN-boxed f64, passed as-is (objects, generic JS values).
    F64,
    /// NaN-boxed string; the raw i64 string pointer is extracted via
    /// `js_get_string_pointer_unified`.
    StrPtr,
    /// NaN-boxed closure/pointer, unboxed to i64 with the pointer mask.
    PtrI64,
    /// The NaN-boxed bits passed unchanged as an i64 (bitcast, no unboxing).
    JsvalI64,
    /// All remaining user arguments, from this position on, packed into a
    /// freshly allocated JS array passed as one i64 array pointer. Only ever
    /// the last entry of a row's `args`.
    VarArgsAsArray,
}

/// What the runtime function returns, and how it is boxed.
#[derive(Copy, Clone, Debug, PartialEq, Eq, Structural)]
pub enum NativeRetKind {
    /// An i64 handle, NaN-boxed as a pointer.
    Ptr,
    /// A `*mut StringHeader`, NaN-boxed as a string (null becomes `null`).
    Str,
    /// A `*mut StringHeader` holding JSON, parsed with `js_json_parse_or_null`.
    ObjFromJsonStr,
    /// A `*mut BigIntHeader`, NaN-boxed as a bigint.
    BigInt,
    /// An f64 passed through (already a NaN-boxed value).
    F64,
    /// An i32 that is ignored; the call yields `undefined`.
    I32Void,
    /// Nothing; the call yields `undefined`.
    Void,
}

/// One row of the dispatch table.
#[derive(Copy, Clone, Debug)]
pub struct NativeModSig {
    pub module: &'static str,
    pub has_receiver: bool,
    pub method: &'static str,
    /// When present, the row only matches a receiver of this class.
    pub class_filter: Option<&'static str>,
    pub runtime: &'static str,
    pub args: &'static [NativeArgKind],
    pub ret: NativeRetKind,
}

pub const NA_F64: NativeArgKind = NativeArgKind::F64;
pub const NA_STR: NativeArgKind = NativeArgKind::StrPtr;
pub const NA_PTR: NativeArgKind = NativeArgKind::PtrI64;
pub const NA_JSV: NativeArgKind = NativeArgKind::JsvalI64;
pub const NA_VARARGS: NativeArgKind = NativeArgKind::VarArgsAsArray;
pub const NR_PTR: NativeRetKind = NativeRetKind::Ptr;
pub const NR_STR: NativeRetKind = NativeRetKind::Str;
pub const NR_OBJ_FROM_JSON_STR: NativeRetKind = NativeRetKind::ObjFromJsonStr;
pub const NR_BIGINT: NativeRetKind = NativeRetKind::BigInt;
pub const NR_F64: NativeRetKind = NativeRetKind::F64;
pub const NR_I32: NativeRetKind = NativeRetKind::I32Void;
pub const NR_VOID: NativeRetKind = NativeRetKind::Void;

/// A row, as a value.
pub open spec fn row(
    module: &'static str,
    has_receiver: bool,
    method: &'static str,
    class_filter: Option<&'static str>,
    runtime: &'static str,
    args: &'static [NativeArgKind],
    ret: NativeRetKind,
) -> NativeModSig {
    NativeModSig { module, has_receiver, method, class_filter, runtime, args, ret }
}

fn sig(
    module: &'static str,
    has_receiver: bool,
    method: &'static str,
    class_filter: Option<&'static str>,
    runtime: &'static str,
    args: &'static [NativeArgKind],
    ret: NativeRetKind,
) -> (s: NativeModSig)
    ensures
        s == row(module, has_receiver, method, class_filter, runtime, args, ret),
{
    NativeModSig { module, has_receiver, method, class_filter, runtime, args, ret }
}

/// Block 0 of the table's rows, in declaration order.
pub open spec fn rows_0() -> Seq<NativeModSig> {
    seq![
        row("fastify", false, "default", None, "js_fastify_create_with_opts", &[NA_F64], NR_PTR),
        row("fastify", true, "get", None, "js_fastify_get", &[NA_STR, NA_PTR], NR_I32),
        row("fastify", true, "post", None, "js_fastify_post", &[NA_STR, NA_PTR], NR_I32),
        row("fastify", true, "put", None, "js_fastify_put", &[NA_STR, NA_PTR], NR_I32),
        row("fastify", true, "delete", None, "js_fastify_delete", &[NA_STR, NA_PTR], NR_I32),
        row("fastify", true, "patch", None, "js_fastify_patch", &[NA_STR, NA_PTR], NR_I32),
        row("fastify", true, "head", None, "js_fastify_head", &[NA_STR, NA_PTR], NR_I32),
        row("fastify", true, "options", None, "js_fastify_options", &[NA_STR, NA_PTR], NR_I32),
        row("fastify", true, "all", None, "js_fastify_all", &[NA_STR, NA_PTR], NR_I32),
        row("fastify", true, "route", None, "js_fastify_route", &[NA_STR, NA_STR, NA_PTR], NR_I32),
        row("fastify", true, "addHook", None, "js_fastify_add_hook", &[NA_STR, NA_PTR], NR_I32),
        row("fastify", true, "setErrorHandler", None, "js_fastify_set_error_handler", &[NA_PTR], NR_I32),
        row("fastify", true, "register", None, "js_fastify_register", &[NA_PTR, NA_F64], NR_I32),
        row("fastify", true, "listen", None, "js_fastify_listen", &[NA_F64, NA_PTR], NR_VOID),
        row("fastify", true, "method", None, "js_fastify_req_method", &[], NR_STR),
        row("fastify", true, "url", None, "js_fastify_req_url", &[], NR_STR),
        row("fastify", true, "params", None, "js_fastify_req_params_object", &[], NR_F64),
        row("fastify", true, "param", None, "js_fastify_req_param", &[NA_JSV], NR_STR),
        row("fastify", true, "query", None, "js_fastify_req_query_object", &[], NR_F64),
        row("fastify", true, "rawBody", None, "js_fastify_req_body", &[], NR_STR),
        row("fastify", true, "headers", None, "js_fastify_req_headers", &[], NR_PTR),
        row("fastify", true, "header", None, "js_fastify_req_header", &[NA_JSV], NR_STR),
        row("fastify", true, "user", None, "js_fastify_req_get_user_data", &[], NR_F64),
        row("fastify", true, "status", None, "js_fastify_reply_status", &[NA_F64], NR_PTR),
        row("fastify", true, "code", None, "js_fastify_reply_status", &[NA_F64], NR_PTR),
        row("fastify", true, "send", None, "js_fastify_reply_send", &[NA_F64], NR_I32),
        row("fastify", true, "header", None, "js_fastify_reply_header", &[NA_JSV, NA_JSV], NR_F64),
        row("fastify", true, "type", None, "js_fastify_reply_type", &[NA_JSV], NR_F64),
        row("fastify", true, "text", None, "js_fastify_ctx_text", &[NA_JSV, NA_F64], NR_F64),
        row("fastify", true, "html", None, "js_fastify_ctx_html", &[NA_JSV, NA_F64], NR_F64),
        row("fastify", true, "redirect", None, "js_fastify_ctx_redirect", &[NA_JSV, NA_F64], NR_F64),
        row("fastify", true, "json", None, "js_fastify_ctx_json", &[NA_F64, NA_F64], NR_F64),
    ]
}

fn build_rows_0() -> (v: Vec<NativeModSig>)
    ensures
        v@ == rows_0(),
{
    vec![
        sig("fastify", false, "default", None, "js_fastify_create_with_opts", &[NA_F64], NR_PTR),
        sig("fastify", true, "get", None, "js_fastify_get", &[NA_STR, NA_PTR], NR_I32),
        sig("fastify", true, "post", None, "js_fastify_post", &[NA_STR, NA_PTR], NR_I32),
        sig("fastify", true, "put", None, "js_fastify_put", &[NA_STR, NA_PTR], NR_I32),
        sig("fastify", true, "delete", None, "js_fastify_delete", &[NA_STR, NA_PTR], NR_I32),
        sig("fastify", true, "patch", None, "js_fastify_patch", &[NA_STR, NA_PTR], NR_I32),
        sig("fastify", true, "head", None, "js_fastify_head", &[NA_STR, NA_PTR], NR_I32),
        sig("fastify", true, "options", None, "js_fastify_options", &[NA_STR, NA_PTR], NR_I32),
        sig("fastify", true, "all", None, "js_fastify_all", &[NA_STR, NA_PTR], NR_I32),
        sig("fastify", true, "route", None, "js_fastify_route", &[NA_STR, NA_STR, NA_PTR], NR_I32),
        sig("fastify", true, "addHook", None, "js_fastify_add_hook", &[NA_STR, NA_PTR], NR_I32),
        sig("fastify", true, "setErrorHandler", None, "js_fastify_set_error_handler", &[NA_PTR], NR_I32),
        sig("fastify", true, "register", None, "js_fastify_register", &[NA_PTR, NA_F64], NR_I32),
        sig("fastify", true, "listen", None, "js_fastify_listen", &[NA_F64, NA_PTR], NR_VOID),
        sig("fastify", true, "method", None, "js_fastify_req_method", &[], NR_STR),
        sig("fastify", true, "url", None, "js_fastify_req_url", &[], NR_STR),
        sig("fastify", true, "params", None, "js_fastify_req_params_object", &[], NR_F64),
        sig("fastify", true, "param", None, "js_fastify_req_param", &[NA_JSV], NR_STR),
        sig("fastify", true, "query", None, "js_fastify_req_query_object", &[], NR_F64),
        sig("fastify", true, "rawBody", None, "js_fastify_req_body", &[], NR_STR),
        sig("fastify", true, "headers", None, "js_fastify_req_headers", &[], NR_PTR),
        sig("fastify", true, "header", None, "js_fastify_req_header", &[NA_JSV], NR_STR),
        sig("fastify", true, "user", None, "js_fastify_req_get_user_data", &[], NR_F64),
        sig("fastify", true, "status", None, "js_fastify_reply_status", &[NA_F64], NR_PTR),
        sig("fastify", true, "code", None, "js_fastify_reply_status", &[NA_F64], NR_PTR),
        sig("fastify", true, "send", None, "js_fastify_reply_send", &[NA_F64], NR_I32),
        sig("fastify", true, "header", None, "js_fastify_reply_header", &[NA_JSV, NA_JSV], NR_F64),
        sig("fastify", true, "type", None, "js_fastify_reply_type", &[NA_JSV], NR_F64),
        sig("fastify", true, "text", None, "js_fastify_ctx_text", &[NA_JSV, NA_F64], NR_F64),
        sig("fastify", true, "html", None, "js_fastify_ctx_html", &[NA_JSV, NA_F64], NR_F64),
        sig("fastify", true, "redirect", None, "js_fastify_ctx_redirect", &[NA_JSV, NA_F64], NR_F64),
        sig("fastify", true, "json", None, "js_fastify_ctx_json", &[NA_F64, NA_F64], NR_F64),
    ]
}

/// Block 1 of the table's rows, in declaration order.
pub open spec fn rows_1() -> Seq<NativeModSig> {
    seq![
        row("fastify", true, "body", None, "js_fastify_req_json", &[], NR_F64),
        row("mysql2", false, "createConnection", None, "js_mysql2_create_connection", &[NA_F64], NR_PTR),
        row("mysql2", false, "createPool", None, "js_mysql2_create_pool", &[NA_F64], NR_PTR),
        row("mysql2/promise", false, "createConnection", None, "js_mysql2_create_connection", &[NA_F64], NR_PTR),
        row("mysql2/promise", false, "createPool", None, "js_mysql2_create_pool", &[NA_F64], NR_PTR),
        row("mysql2", true, "query", Some("Pool"), "js_mysql2_pool_query", &[NA_STR, NA_PTR], NR_PTR),
        row("mysql2", true, "execute", Some("Pool"), "js_mysql2_pool_execute", &[NA_STR, NA_PTR], NR_PTR),
        row("mysql2", true, "end", Some("Pool"), "js_mysql2_pool_end", &[], NR_PTR),
        row("mysql2/promise", true, "query", Some("Pool"), "js_mysql2_pool_query", &[NA_STR, NA_PTR], NR_PTR),
        row("mysql2/promise", true, "execute", Some("Pool"), "js_mysql2_pool_execute", &[NA_STR, NA_PTR], NR_PTR),
        row("mysql2/promise", true, "end", Some("Pool"), "js_mysql2_pool_end", &[], NR_PTR),
        row("mysql2", true, "query", Some("PoolConnection"), "js_mysql2_pool_connection_query", &[NA_STR, NA_PTR], NR_PTR),
        row("mysql2", true, "execute", Some("PoolConnection"), "js_mysql2_pool_connection_execute", &[NA_STR, NA_PTR], NR_PTR),
        row("mysql2/promise", true, "query", Some("PoolConnection"), "js_mysql2_pool_connection_query", &[NA_STR, NA_PTR], NR_PTR),
        row("mysql2/promise", true, "execute", Some("PoolConnection"), "js_mysql2_pool_connection_execute", &[NA_STR, NA_PTR], NR_PTR),
        row("mysql2", true, "query", None, "js_mysql2_connection_query", &[NA_STR, NA_PTR], NR_PTR),
        row("mysql2", true, "execute", None, "js_mysql2_connection_execute", &[NA_STR, NA_PTR], NR_PTR),
        row("mysql2", true, "end", None, "js_mysql2_connection_end", &[], NR_PTR),
        row("mysql2", true, "getConnection", None, "js_mysql2_pool_get_connection", &[], NR_PTR),
        row("mysql2", true, "release", None, "js_mysql2_pool_connection_release", &[], NR_VOID),
        row("mysql2", true, "beginTransaction", None, "js_mysql2_connection_begin_transaction", &[], NR_PTR),
        row("mysql2", true, "commit", None, "js_mysql2_connection_commit", &[], NR_PTR),
        row("mysql2", true, "rollback", None, "js_mysql2_connection_rollback", &[], NR_PTR),
        row("mysql2/promise", true, "query", None, "js_mysql2_connection_query", &[NA_STR, NA_PTR], NR_PTR),
        row("mysql2/promise", true, "execute", None, "js_mysql2_connection_execute", &[NA_STR, NA_PTR], NR_PTR),
        row("mysql2/promise", true, "end", None, "js_mysql2_connection_end", &[], NR_PTR),
        row("mysql2/promise", true, "getConnection", None, "js_mysql2_pool_get_connection", &[], NR_PTR),
        row("mysql2/promise", true, "release", None, "js_mysql2_pool_connection_release", &[], NR_VOID),
        row("mysql2/promise", true, "beginTransaction", None, "js_mysql2_connection_begin_transaction", &[], NR_PTR),
        row("mysql2/promise", true, "commit", None, "js_mysql2_connection_commit", &[], NR_PTR),
        row("mysql2/promise", true, "rollback", None, "js_mysql2_connection_rollback", &[], NR_PTR),
        row("pg", false, "connect", None, "js_pg_connect", &[NA_F64], NR_PTR),
    ]
}

fn build_rows_1() -> (v: Vec<NativeModSig>)
    ensures
        v@ == rows_1(),
{
    vec![
        sig("fastify", true, "body", None, "js_fastify_req_json", &[], NR_F64),
        sig("mysql2", false, "createConnection", None, "js_mysql2_create_connection", &[NA_F64], NR_PTR),
        sig("mysql2", false, "createPool", None, "js_mysql2_create_pool", &[NA_F64], NR_PTR),
        sig("mysql2/promise", false, "createConnection", None, "js_mysql2_create_connection", &[NA_F64], NR_PTR),
        sig("mysql2/promise", false, "createPool", None, "js_mysql2_create_pool", &[NA_F64], NR_PTR),
        sig("mysql2", true, "query", Some("Pool"), "js_mysql2_pool_query", &[NA_STR, NA_PTR], NR_PTR),
        sig("mysql2", true, "execute", Some("Pool"), "js_mysql2_pool_execute", &[NA_STR, NA_PTR], NR_PTR),
        sig("mysql2", true, "end", Some("Pool"), "js_mysql2_pool_end", &[], NR_PTR),
        sig("mysql2/promise", true, "query", Some("Pool"), "js_mysql2_pool_query", &[NA_STR, NA_PTR], NR_PTR),
        sig("mysql2/promise", true, "execute", Some("Pool"), "js_mysql2_pool_execute", &[NA_STR, NA_PTR], NR_PTR),
        sig("mysql2/promise", true, "end", Some("Pool"), "js_mysql2_pool_end", &[], NR_PTR),
        sig("mysql2", true, "query", Some("PoolConnection"), "js_mysql2_pool_connection_query", &[NA_STR, NA_PTR], NR_PTR),
        sig("mysql2", true, "execute", Some("PoolConnection"), "js_mysql2_pool_connection_execute", &[NA_STR, NA_PTR], NR_PTR),
        sig("mysql2/promise", true, "query", Some("PoolConnection"), "js_mysql2_pool_connection_query", &[NA_STR, NA_PTR], NR_PTR),
        sig("mysql2/promise", true, "execute", Some("PoolConnection"), "js_mysql2_pool_connection_execute", &[NA_STR, NA_PTR], NR_PTR),
        sig("mysql2", true, "query", None, "js_mysql2_connection_query", &[NA_STR, NA_PTR], NR_PTR),
        sig("mysql2", true, "execute", None, "js_mysql2_connection_execute", &[NA_STR, NA_PTR], NR_PTR),
        sig("mysql2", true, "end", None, "js_mysql2_connection_end", &[], NR_PTR),
        sig("mysql2", true, "getConnection", None, "js_mysql2_pool_get_connection", &[], NR_PTR),
        sig("mysql2", true, "release", None, "js_mysql2_pool_connection_release", &[], NR_VOID),
        sig("mysql2", true, "beginTransaction", None, "js_mysql2_connection_begin_transaction", &[], NR_PTR),
        sig("mysql2", true, "commit", None, "js_mysql2_connection_commit", &[], NR_PTR),
        sig("mysql2", true, "rollback", None, "js_mysql2_connection_rollback", &[], NR_PTR),
        sig("mysql2/promise", true, "query", None, "js_mysql2_connection_query", &[NA_STR, NA_PTR], NR_PTR),
        sig("mysql2/promise", true, "execute", None, "js_mysql2_connection_execute", &[NA_STR, NA_PTR], NR_PTR),
        sig("mysql2/promise", true, "end", None, "js_mysql2_connection_end", &[], NR_PTR),
        sig("mysql2/promise", true, "getConnection", None, "js_mysql2_pool_get_connection", &[], NR_PTR),
        sig("mysql2/promise", true, "release", None, "js_mysql2_pool_connection_release", &[], NR_VOID),
        sig("mysql2/promise", true, "beginTransaction", None, "js_mysql2_connection_begin_transaction", &[], NR_PTR),
        sig("mysql2/promise", true, "commit", None, "js_mysql2_connection_commit", &[], NR_PTR),
        sig("mysql2/promise", true, "rollback", None, "js_mysql2_connection_rollback", &[], NR_PTR),
        sig("pg", false, "connect", None, "js_pg_connect", &[NA_F64], NR_PTR),
    ]
}

/// Block 2 of the table's rows, in declaration order.
pub open spec fn rows_2() -> Seq<NativeModSig> {
    seq![
        row("pg", false, "Pool", None, "js_pg_create_pool", &[NA_F64], NR_PTR),
        row("pg", true, "connect", Some("Client"), "js_pg_client_connect", &[], NR_PTR),
        row("pg", true, "query", Some("Pool"), "js_pg_pool_query", &[NA_STR, NA_PTR], NR_PTR),
        row("pg", true, "end", Some("Pool"), "js_pg_pool_end", &[], NR_PTR),
        row("pg", true, "query", None, "js_pg_client_query", &[NA_STR, NA_PTR], NR_PTR),
        row("pg", true, "end", None, "js_pg_client_end", &[], NR_PTR),
        row("ioredis", false, "createClient", None, "js_ioredis_new", &[NA_F64], NR_PTR),
        row("ioredis", true, "set", None, "js_ioredis_set", &[NA_STR, NA_STR], NR_PTR),
        row("ioredis", true, "get", None, "js_ioredis_get", &[NA_STR], NR_PTR),
        row("ioredis", true, "del", None, "js_ioredis_del", &[NA_STR], NR_PTR),
        row("ioredis", true, "exists", None, "js_ioredis_exists", &[NA_STR], NR_PTR),
        row("ioredis", true, "incr", None, "js_ioredis_incr", &[NA_STR], NR_PTR),
        row("ioredis", true, "decr", None, "js_ioredis_decr", &[NA_STR], NR_PTR),
        row("ioredis", true, "expire", None, "js_ioredis_expire", &[NA_STR, NA_F64], NR_PTR),
        row("ioredis", true, "quit", None, "js_ioredis_quit", &[], NR_PTR),
        row("ioredis", true, "connect", None, "js_ioredis_connect", &[], NR_PTR),
        row("ioredis", true, "disconnect", None, "js_ioredis_quit", &[], NR_PTR),
        row("mongodb", false, "connect", None, "js_mongodb_connect", &[NA_F64], NR_PTR),
        row("mongodb", true, "connect", None, "js_mongodb_client_connect", &[], NR_PTR),
        row("mongodb", true, "db", None, "js_mongodb_client_db", &[NA_STR], NR_PTR),
        row("mongodb", true, "collection", None, "js_mongodb_db_collection", &[NA_STR], NR_PTR),
        row("mongodb", true, "insertOne", None, "js_mongodb_collection_insert_one_value", &[NA_F64], NR_PTR),
        row("mongodb", true, "insertMany", None, "js_mongodb_collection_insert_many_value", &[NA_F64], NR_PTR),
        row("mongodb", true, "find", None, "js_mongodb_collection_find_value", &[NA_F64], NR_PTR),
        row("mongodb", true, "findOne", None, "js_mongodb_collection_find_one_value", &[NA_F64], NR_PTR),
        row("mongodb", true, "updateOne", None, "js_mongodb_collection_update_one_value", &[NA_F64, NA_F64], NR_PTR),
        row("mongodb", true, "updateMany", None, "js_mongodb_collection_update_many_value", &[NA_F64, NA_F64], NR_PTR),
        row("mongodb", true, "deleteOne", None, "js_mongodb_collection_delete_one_value", &[NA_F64], NR_PTR),
        row("mongodb", true, "deleteMany", None, "js_mongodb_collection_delete_many_value", &[NA_F64], NR_PTR),
        row("mongodb", true, "countDocuments", None, "js_mongodb_collection_count_value", &[NA_F64], NR_PTR),
        row("mongodb", true, "close", None, "js_mongodb_client_close", &[], NR_PTR),
        row("better-sqlite3", false, "default", None, "js_sqlite_open", &[NA_STR], NR_PTR),
    ]
}

fn build_rows_2() -> (v: Vec<NativeModSig>)
    ensures
        v@ == rows_2(),
{
    vec![
        sig("pg", false, "Pool", None, "js_pg_create_pool", &[NA_F64], NR_PTR),
        sig("pg", true, "connect", Some("Client"), "js_pg_client_connect", &[], NR_PTR),
        sig("pg", true, "query", Some("Pool"), "js_pg_pool_query", &[NA_STR, NA_PTR], NR_PTR),
        sig("pg", true, "end", Some("Pool"), "js_pg_pool_end", &[], NR_PTR),
        sig("pg", true, "query", None, "js_pg_client_query", &[NA_STR, NA_PTR], NR_PTR),
        sig("pg", true, "end", None, "js_pg_client_end", &[], NR_PTR),
        sig("ioredis", false, "createClient", None, "js_ioredis_new", &[NA_F64], NR_PTR),
        sig("ioredis", true, "set", None, "js_ioredis_set", &[NA_STR, NA_STR], NR_PTR),
        sig("ioredis", true, "get", None, "js_ioredis_get", &[NA_STR], NR_PTR),
        sig("ioredis", true, "del", None, "js_ioredis_del", &[NA_STR], NR_PTR),
        sig("ioredis", true, "exists", None, "js_ioredis_exists", &[NA_STR], NR_PTR),
        sig("ioredis", true, "incr", None, "js_ioredis_incr", &[NA_STR], NR_PTR),
        sig("ioredis", true, "decr", None, "js_ioredis_decr", &[NA_STR], NR_PTR),
        sig("ioredis", true, "expire", None, "js_ioredis_expire", &[NA_STR, NA_F64], NR_PTR),
        sig("ioredis", true, "quit", None, "js_ioredis_quit", &[], NR_PTR),
        sig("ioredis", true, "connect", None, "js_ioredis_connect", &[], NR_PTR),
        sig("ioredis", true, "disconnect", None, "js_ioredis_quit", &[], NR_PTR),
        sig("mongodb", false, "connect", None, "js_mongodb_connect", &[NA_F64], NR_PTR),
        sig("mongodb", true, "connect", None, "js_mongodb_client_connect", &[], NR_PTR),
        sig("mongodb", true, "db", None, "js_mongodb_client_db", &[NA_STR], NR_PTR),
        sig("mongodb", true, "collection", None, "js_mongodb_db_collection", &[NA_STR], NR_PTR),
        sig("mongodb", true, "insertOne", None, "js_mongodb_collection_insert_one_value", &[NA_F64], NR_PTR),
        sig("mongodb", true, "insertMany", None, "js_mongodb_collection_insert_many_value", &[NA_F64], NR_PTR),
        sig("mongodb", true, "find", None, "js_mongodb_collection_find_value", &[NA_F64], NR_PTR),
        sig("mongodb", true, "findOne", None, "js_mongodb_collection_find_one_value", &[NA_F64], NR_PTR),
        sig("mongodb", true, "updateOne", None, "js_mongodb_collection_update_one_value", &[NA_F64, NA_F64], NR_PTR),
        sig("mongodb", true, "updateMany", None, "js_mongodb_collection_update_many_value", &[NA_F64, NA_F64], NR_PTR),
        sig("mongodb", true, "deleteOne", None, "js_mongodb_collection_delete_one_value", &[NA_F64], NR_PTR),
        sig("mongodb", true, "deleteMany", None, "js_mongodb_collection_delete_many_value", &[NA_F64], NR_PTR),
        sig("mongodb", true, "countDocuments", None, "js_mongodb_collection_count_value", &[NA_F64], NR_PTR),
        sig("mongodb", true, "close", None, "js_mongodb_client_close", &[], NR_PTR),
        sig("better-sqlite3", false, "default", None, "js_sqlite_open", &[NA_STR], NR_PTR),
    ]
}

/// Block 3 of the table's rows, in declaration order.
pub open spec fn rows_3() -> Seq<NativeModSig> {
    seq![
        row("better-sqlite3", true, "prepare", None, "js_sqlite_prepare", &[NA_STR], NR_PTR),
        row("better-sqlite3", true, "run", None, "js_sqlite_stmt_run", &[NA_VARARGS], NR_PTR),
        row("better-sqlite3", true, "get", None, "js_sqlite_stmt_get", &[NA_VARARGS], NR_F64),
        row("better-sqlite3", true, "all", None, "js_sqlite_stmt_all", &[NA_VARARGS], NR_PTR),
        row("better-sqlite3", true, "raw", None, "js_sqlite_stmt_raw", &[], NR_PTR),
        row("better-sqlite3", true, "exec", None, "js_sqlite_exec", &[NA_STR], NR_VOID),
        row("better-sqlite3", true, "close", None, "js_sqlite_close", &[], NR_VOID),
        row("ws", false, "Server", None, "js_ws_server_new", &[NA_F64], NR_PTR),
        row("ws", false, "WebSocket", None, "js_ws_connect", &[NA_STR], NR_PTR),
        row("ws", true, "on", None, "js_ws_on", &[NA_STR, NA_PTR], NR_I32),
        row("ws", true, "send", None, "js_ws_send", &[NA_STR], NR_VOID),
        row("ws", true, "close", None, "js_ws_close", &[], NR_VOID),
        row("ws", true, "send", Some("Client"), "js_ws_send_client_i64", &[NA_STR], NR_VOID),
        row("ws", true, "close", Some("Client"), "js_ws_close_client_i64", &[], NR_VOID),
        row("ws", true, "on", Some("Client"), "js_ws_on_client_i64", &[NA_STR, NA_PTR], NR_PTR),
        row("ws", true, "addListener", Some("Client"), "js_ws_on_client_i64", &[NA_STR, NA_PTR], NR_PTR),
        row("ws", false, "sendToClient", None, "js_ws_send_to_client", &[NA_F64, NA_STR], NR_VOID),
        row("ws", false, "closeClient", None, "js_ws_close_client", &[NA_F64], NR_VOID),
        row("net", false, "createConnection", None, "js_net_socket_connect", &[NA_F64, NA_F64, NA_F64], NR_PTR),
        row("net", false, "connect", None, "js_net_socket_connect", &[NA_F64, NA_F64, NA_F64], NR_PTR),
        row("net", false, "Socket", None, "js_net_socket_alloc", &[], NR_PTR),
        row("net", false, "isIP", None, "js_net_is_ip", &[NA_STR], NR_F64),
        row("net", false, "isIPv4", None, "js_net_is_ipv4", &[NA_STR], NR_F64),
        row("net", false, "isIPv6", None, "js_net_is_ipv6", &[NA_STR], NR_F64),
        row("net", false, "getDefaultAutoSelectFamily", None, "js_net_get_default_auto_select_family", &[], NR_F64),
        row("net", false, "setDefaultAutoSelectFamily", None, "js_net_set_default_auto_select_family", &[NA_F64], NR_F64),
        row("net", false, "getDefaultAutoSelectFamilyAttemptTimeout", None, "js_net_get_default_auto_select_family_attempt_timeout", &[], NR_F64),
        row("net", false, "setDefaultAutoSelectFamilyAttemptTimeout", None, "js_net_set_default_auto_select_family_attempt_timeout", &[NA_F64], NR_F64),
        row("net", true, "connect", Some("Socket"), "js_net_socket_method_connect", &[NA_F64, NA_STR], NR_VOID),
        row("net", true, "write", Some("Socket"), "js_net_socket_write", &[NA_PTR], NR_VOID),
        row("net", true, "end", Some("Socket"), "js_net_socket_end", &[], NR_VOID),
        row("net", true, "destroy", Some("Socket"), "js_net_socket_destroy", &[], NR_VOID),
    ]
}

fn build_rows_3() -> (v: Vec<NativeModSig>)
    ensures
        v@ == rows_3(),
{
    vec![
        sig("better-sqlite3", true, "prepare", None, "js_sqlite_prepare", &[NA_STR], NR_PTR),
        sig("better-sqlite3", true, "run", None, "js_sqlite_stmt_run", &[NA_VARARGS], NR_PTR),
        sig("better-sqlite3", true, "get", None, "js_sqlite_stmt_get", &[NA_VARARGS], NR_F64),
        sig("better-sqlite3", true, "all", None, "js_sqlite_stmt_all", &[NA_VARARGS], NR_PTR),
        sig("better-sqlite3", true, "raw", None, "js_sqlite_stmt_raw", &[], NR_PTR),
        sig("better-sqlite3", true, "exec", None, "js_sqlite_exec", &[NA_STR], NR_VOID),
        sig("better-sqlite3", true, "close", None, "js_sqlite_close", &[], NR_VOID),
        sig("ws", false, "Server", None, "js_ws_server_new", &[NA_F64], NR_PTR),
        sig("ws", false, "WebSocket", None, "js_ws_connect", &[NA_STR], NR_PTR),
        sig("ws", true, "on", None, "js_ws_on", &[NA_STR, NA_PTR], NR_I32),
        sig("ws", true, "send", None, "js_ws_send", &[NA_STR], NR_VOID),
        sig("ws", true, "close", None, "js_ws_close", &[], NR_VOID),
        sig("ws", true, "send", Some("Client"), "js_ws_send_client_i64", &[NA_STR], NR_VOID),
        sig("ws", true, "close", Some("Client"), "js_ws_close_client_i64", &[], NR_VOID),
        sig("ws", true, "on", Some("Client"), "js_ws_on_client_i64", &[NA_STR, NA_PTR], NR_PTR),
        sig("ws", true, "addListener", Some("Client"), "js_ws_on_client_i64", &[NA_STR, NA_PTR], NR_PTR),
        sig("ws", false, "sendToClient", None, "js_ws_send_to_client", &[NA_F64, NA_STR], NR_VOID),
        sig("ws", false, "closeClient", None, "js_ws_close_client", &[NA_F64], NR_VOID),
        sig("net", false, "createConnection", None, "js_net_socket_connect", &[NA_F64, NA_F64, NA_F64], NR_PTR),
        sig("net", false, "connect", None, "js_net_socket_connect", &[NA_F64, NA_F64, NA_F64], NR_PTR),
        sig("net", false, "Socket", None, "js_net_socket_alloc", &[], NR_PTR),
        sig("net", false, "isIP", None, "js_net_is_ip", &[NA_STR], NR_F64),
        sig("net", false, "isIPv4", None, "js_net_is_ipv4", &[NA_STR], NR_F64),
        sig("net", false, "isIPv6", None, "js_net_is_ipv6", &[NA_STR], NR_F64),
        sig("net", false, "getDefaultAutoSelectFamily", None, "js_net_get_default_auto_select_family", &[], NR_F64),
        sig("net", false, "setDefaultAutoSelectFamily", None, "js_net_set_default_auto_select_family", &[NA_F64], NR_F64),
        sig("net", false, "getDefaultAutoSelectFamilyAttemptTimeout", None, "js_net_get_default_auto_select_family_attempt_timeout", &[], NR_F64),
        sig("net", false, "setDefaultAutoSelectFamilyAttemptTimeout", None, "js_net_set_default_auto_select_family_attempt_timeout", &[NA_F64], NR_F64),
        sig("net", true, "connect", Some("Socket"), "js_net_socket_method_connect", &[NA_F64, NA_STR], NR_VOID),
        sig("net", true, "write", Some("Socket"), "js_net_socket_write", &[NA_PTR], NR_VOID),
        sig("net", true, "end", Some("Socket"), "js_net_socket_end", &[], NR_VOID),
        sig("net", true, "destroy", Some("Socket"), "js_net_socket_destroy", &[], NR_VOID),
    ]
}

/// Block 4 of the table's rows, in declaration order.
pub open spec fn rows_4() -> Seq<NativeModSig> {
    seq![
        row("net", true, "on", Some("Socket"), "js_net_socket_on", &[NA_STR, NA_PTR], NR_VOID),
        row("net", true, "upgradeToTLS", Some("Socket"), "js_net_socket_upgrade_tls", &[NA_STR, NA_F64], NR_PTR),
        row("tls", false, "connect", None, "js_tls_connect", &[NA_STR, NA_F64, NA_STR, NA_F64], NR_PTR),
        row("stream", false, "from", None, "js_node_stream_readable_from", &[NA_F64], NR_F64),
        row("events", false, "EventEmitter", None, "js_event_emitter_new", &[], NR_PTR),
        row("events", true, "on", None, "js_event_emitter_on", &[NA_STR, NA_PTR], NR_PTR),
        row("events", true, "emit", None, "js_event_emitter_emit", &[NA_STR, NA_F64], NR_F64),
        row("events", true, "removeListener", None, "js_event_emitter_remove_listener", &[NA_STR, NA_PTR], NR_PTR),
        row("events", true, "removeAllListeners", None, "js_event_emitter_remove_all_listeners", &[NA_STR], NR_PTR),
        row("events", true, "once", None, "js_event_emitter_once", &[NA_STR, NA_PTR], NR_PTR),
        row("events", true, "addListener", None, "js_event_emitter_on", &[NA_STR, NA_PTR], NR_PTR),
        row("events", true, "prependListener", None, "js_event_emitter_prepend_listener", &[NA_STR, NA_PTR], NR_PTR),
        row("events", true, "prependOnceListener", None, "js_event_emitter_prepend_once_listener", &[NA_STR, NA_PTR], NR_PTR),
        row("events", true, "off", None, "js_event_emitter_remove_listener", &[NA_STR, NA_PTR], NR_PTR),
        row("events", true, "listenerCount", None, "js_event_emitter_listener_count", &[NA_STR], NR_F64),
        row("events", true, "listeners", None, "js_event_emitter_listeners", &[NA_STR], NR_PTR),
        row("events", true, "rawListeners", None, "js_event_emitter_raw_listeners", &[NA_STR], NR_PTR),
        row("events", true, "eventNames", None, "js_event_emitter_event_names", &[], NR_PTR),
        row("events", true, "setMaxListeners", None, "js_event_emitter_set_max_listeners", &[NA_F64], NR_PTR),
        row("events", true, "getMaxListeners", None, "js_event_emitter_get_max_listeners", &[], NR_F64),
        row("events", false, "once", None, "js_events_once", &[NA_PTR, NA_STR], NR_PTR),
        row("events", false, "getEventListeners", None, "js_events_get_event_listeners", &[NA_PTR, NA_STR], NR_PTR),
        row("events", false, "listenerCount", None, "js_events_listener_count", &[NA_PTR, NA_STR], NR_F64),
        row("events", false, "getMaxListeners", None, "js_events_get_max_listeners", &[NA_PTR], NR_F64),
        row("events", false, "setMaxListeners", None, "js_events_set_max_listeners", &[NA_F64, NA_PTR], NR_F64),
        row("string_decoder", true, "write", Some("StringDecoder"), "js_string_decoder_write", &[NA_F64], NR_F64),
        row("string_decoder", true, "end", Some("StringDecoder"), "js_string_decoder_end", &[NA_F64], NR_F64),
        row("lru-cache", false, "default", None, "js_lru_cache_new", &[NA_F64], NR_PTR),
        row("lru-cache", true, "get", None, "js_lru_cache_get", &[NA_F64], NR_F64),
        row("lru-cache", true, "set", None, "js_lru_cache_set", &[NA_F64, NA_F64], NR_PTR),
        row("lru-cache", true, "has", None, "js_lru_cache_has", &[NA_F64], NR_F64),
        row("lru-cache", true, "delete", None, "js_lru_cache_delete", &[NA_F64], NR_F64),
    ]
}

fn build_rows_4() -> (v: Vec<NativeModSig>)
    ensures
        v@ == rows_4(),
{
    vec![
        sig("net", true, "on", Some("Socket"), "js_net_socket_on", &[NA_STR, NA_PTR], NR_VOID),
        sig("net", true, "upgradeToTLS", Some("Socket"), "js_net_socket_upgrade_tls", &[NA_STR, NA_F64], NR_PTR),
        sig("tls", false, "connect", None, "js_tls_connect", &[NA_STR, NA_F64, NA_STR, NA_F64], NR_PTR),
        sig("stream", false, "from", None, "js_node_stream_readable_from", &[NA_F64], NR_F64),
        sig("events", false, "EventEmitter", None, "js_event_emitter_new", &[], NR_PTR),
        sig("events", true, "on", None, "js_event_emitter_on", &[NA_STR, NA_PTR], NR_PTR),
        sig("events", true, "emit", None, "js_event_emitter_emit", &[NA_STR, NA_F64], NR_F64),
        sig("events", true, "removeListener", None, "js_event_emitter_remove_listener", &[NA_STR, NA_PTR], NR_PTR),
        sig("events", true, "removeAllListeners", None, "js_event_emitter_remove_all_listeners", &[NA_STR], NR_PTR),
        sig("events", true, "once", None, "js_event_emitter_once", &[NA_STR, NA_PTR], NR_PTR),
        sig("events", true, "addListener", None, "js_event_emitter_on", &[NA_STR, NA_PTR], NR_PTR),
        sig("events", true, "prependListener", None, "js_event_emitter_prepend_listener", &[NA_STR, NA_PTR], NR_PTR),
        sig("events", true, "prependOnceListener", None, "js_event_emitter_prepend_once_listener", &[NA_STR, NA_PTR], NR_PTR),
        sig("events", true, "off", None, "js_event_emitter_remove_listener", &[NA_STR, NA_PTR], NR_PTR),
        sig("events", true, "listenerCount", None, "js_event_emitter_listener_count", &[NA_STR], NR_F64),
        sig("events", true, "listeners", None, "js_event_emitter_listeners", &[NA_STR], NR_PTR),
        sig("events", true, "rawListeners", None, "js_event_emitter_raw_listeners", &[NA_STR], NR_PTR),
        sig("events", true, "eventNames", None, "js_event_emitter_event_names", &[], NR_PTR),
        sig("events", true, "setMaxListeners", None, "js_event_emitter_set_max_listeners", &[NA_F64], NR_PTR),
        sig("events", true, "getMaxListeners", None, "js_event_emitter_get_max_listeners", &[], NR_F64),
        sig("events", false, "once", None, "js_events_once", &[NA_PTR, NA_STR], NR_PTR),
        sig("events", false, "getEventListeners", None, "js_events_get_event_listeners", &[NA_PTR, NA_STR], NR_PTR),
        sig("events", false, "listenerCount", None, "js_events_listener_count", &[NA_PTR, NA_STR], NR_F64),
        sig("events", false, "getMaxListeners", None, "js_events_get_max_listeners", &[NA_PTR], NR_F64),
        sig("events", false, "setMaxListeners", None, "js_events_set_max_listeners", &[NA_F64, NA_PTR], NR_F64),
        sig("string_decoder", true, "write", Some("StringDecoder"), "js_string_decoder_write", &[NA_F64], NR_F64),
        sig("string_decoder", true, "end", Some("StringDecoder"), "js_string_decoder_end", &[NA_F64], NR_F64),
        sig("lru-cache", false, "default", None, "js_lru_cache_new", &[NA_F64], NR_PTR),
        sig("lru-cache", true, "get", None, "js_lru_cache_get", &[NA_F64], NR_F64),
        sig("lru-cache", true, "set", None, "js_lru_cache_set", &[NA_F64, NA_F64], NR_PTR),
        sig("lru-cache", true, "has", None, "js_lru_cache_has", &[NA_F64], NR_F64),
        sig("lru-cache", true, "delete", None, "js_lru_cache_delete", &[NA_F64], NR_F64),
    ]
}

/// Block 5 of the table's rows, in declaration order.
pub open spec fn rows_5() -> Seq<NativeModSig> {
    seq![
        row("lru-cache", true, "clear", None, "js_lru_cache_clear", &[], NR_VOID),
        row("lru-cache", true, "size", None, "js_lru_cache_size", &[], NR_F64),
        row("commander", true, "name", None, "js_commander_name", &[NA_STR], NR_PTR),
        row("commander", true, "description", None, "js_commander_description", &[NA_STR], NR_PTR),
        row("commander", true, "version", None, "js_commander_version", &[NA_STR], NR_PTR),
        row("commander", true, "command", None, "js_commander_command", &[NA_STR], NR_PTR),
        row("commander", true, "option", None, "js_commander_option", &[NA_STR, NA_STR, NA_STR], NR_PTR),
        row("commander", true, "requiredOption", None, "js_commander_required_option", &[NA_STR, NA_STR, NA_STR], NR_PTR),
        row("commander", true, "action", None, "js_commander_action", &[NA_PTR], NR_PTR),
        row("commander", true, "parse", None, "js_commander_parse", &[NA_F64], NR_PTR),
        row("commander", true, "opts", None, "js_commander_opts", &[], NR_PTR),
        row("async_hooks", true, "run", None, "js_async_local_storage_run", &[NA_F64, NA_PTR], NR_F64),
        row("async_hooks", true, "getStore", None, "js_async_local_storage_get_store", &[], NR_F64),
        row("async_hooks", true, "enterWith", None, "js_async_local_storage_enter_with", &[NA_F64], NR_VOID),
        row("async_hooks", true, "exit", None, "js_async_local_storage_exit", &[NA_PTR], NR_F64),
        row("async_hooks", true, "disable", None, "js_async_local_storage_disable", &[], NR_VOID),
        row("async_hooks", false, "createHook", None, "js_async_hooks_create_hook", &[NA_F64], NR_PTR),
        row("async_hooks", false, "executionAsyncId", None, "js_async_hooks_execution_async_id", &[], NR_F64),
        row("async_hooks", false, "triggerAsyncId", None, "js_async_hooks_trigger_async_id", &[], NR_F64),
        row("async_hooks", true, "enable", Some("AsyncHook"), "js_async_hook_enable", &[], NR_PTR),
        row("async_hooks", true, "disable", Some("AsyncHook"), "js_async_hook_disable", &[], NR_PTR),
        row("async_hooks", true, "asyncId", Some("AsyncResource"), "js_async_resource_async_id", &[], NR_F64),
        row("async_hooks", true, "triggerAsyncId", Some("AsyncResource"), "js_async_resource_trigger_async_id", &[], NR_F64),
        row("async_hooks", true, "emitDestroy", Some("AsyncResource"), "js_async_resource_emit_destroy", &[], NR_PTR),
        row("async_hooks", true, "runInAsyncScope", Some("AsyncResource"), "js_async_resource_run_in_async_scope", &[NA_PTR, NA_F64, NA_VARARGS], NR_F64),
        row("async_hooks", true, "bind", Some("AsyncResource"), "js_async_resource_bind", &[NA_PTR], NR_PTR),
        row("decimal.js", true, "plus", None, "js_decimal_plus_value", &[NA_F64], NR_PTR),
        row("decimal.js", true, "minus", None, "js_decimal_minus_value", &[NA_F64], NR_PTR),
        row("decimal.js", true, "times", None, "js_decimal_times_value", &[NA_F64], NR_PTR),
        row("decimal.js", true, "div", None, "js_decimal_div_value", &[NA_F64], NR_PTR),
        row("decimal.js", true, "mod", None, "js_decimal_mod_value", &[NA_F64], NR_PTR),
        row("decimal.js", true, "pow", None, "js_decimal_pow", &[NA_F64], NR_PTR),
    ]
}

fn build_rows_5() -> (v: Vec<NativeModSig>)
    ensures
        v@ == rows_5(),
{
    vec![
        sig("lru-cache", true, "clear", None, "js_lru_cache_clear", &[], NR_VOID),
        sig("lru-cache", true, "size", None, "js_lru_cache_size", &[], NR_F64),
        sig("commander", true, "name", None, "js_commander_name", &[NA_STR], NR_PTR),
        sig("commander", true, "description", None, "js_commander_description", &[NA_STR], NR_PTR),
        sig("commander", true, "version", None, "js_commander_version", &[NA_STR], NR_PTR),
        sig("commander", true, "command", None, "js_commander_command", &[NA_STR], NR_PTR),
        sig("commander", true, "option", None, "js_commander_option", &[NA_STR, NA_STR, NA_STR], NR_PTR),
        sig("commander", true, "requiredOption", None, "js_commander_required_option", &[NA_STR, NA_STR, NA_STR], NR_PTR),
        sig("commander", true, "action", None, "js_commander_action", &[NA_PTR], NR_PTR),
        sig("commander", true, "parse", None, "js_commander_parse", &[NA_F64], NR_PTR),
        sig("commander", true, "opts", None, "js_commander_opts", &[], NR_PTR),
        sig("async_hooks", true, "run", None, "js_async_local_storage_run", &[NA_F64, NA_PTR], NR_F64),
        sig("async_hooks", true, "getStore", None, "js_async_local_storage_get_store", &[], NR_F64),
        sig("async_hooks", true, "enterWith", None, "js_async_local_storage_enter_with", &[NA_F64], NR_VOID),
        sig("async_hooks", true, "exit", None, "js_async_local_storage_exit", &[NA_PTR], NR_F64),
        sig("async_hooks", true, "disable", None, "js_async_local_storage_disable", &[], NR_VOID),
        sig("async_hooks", false, "createHook", None, "js_async_hooks_create_hook", &[NA_F64], NR_PTR),
        sig("async_hooks", false, "executionAsyncId", None, "js_async_hooks_execution_async_id", &[], NR_F64),
        sig("async_hooks", false, "triggerAsyncId", None, "js_async_hooks_trigger_async_id", &[], NR_F64),
        sig("async_hooks", true, "enable", Some("AsyncHook"), "js_async_hook_enable", &[], NR_PTR),
        sig("async_hooks", true, "disable", Some("AsyncHook"), "js_async_hook_disable", &[], NR_PTR),
        sig("async_hooks", true, "asyncId", Some("AsyncResource"), "js_async_resource_async_id", &[], NR_F64),
        sig("async_hooks", true, "triggerAsyncId", Some("AsyncResource"), "js_async_resource_trigger_async_id", &[], NR_F64),
        sig("async_hooks", true, "emitDestroy", Some("AsyncResource"), "js_async_resource_emit_destroy", &[], NR_PTR),
        sig("async_hooks", true, "runInAsyncScope", Some("AsyncResource"), "js_async_resource_run_in_async_scope", &[NA_PTR, NA_F64, NA_VARARGS], NR_F64),
        sig("async_hooks", true, "bind", Some("AsyncResource"), "js_async_resource_bind", &[NA_PTR], NR_PTR),
        sig("decimal.js", true, "plus", None, "js_decimal_plus_value", &[NA_F64], NR_PTR),
        sig("decimal.js", true, "minus", None, "js_decimal_minus_value", &[NA_F64], NR_PTR),
        sig("decimal.js", true, "times", None, "js_decimal_times_value", &[NA_F64], NR_PTR),
        sig("decimal.js", true, "div", None, "js_decimal_div_value", &[NA_F64], NR_PTR),
        sig("decimal.js", true, "mod", None, "js_decimal_mod_value", &[NA_F64], NR_PTR),
        sig("decimal.js", true, "pow", None, "js_decimal_pow", &[NA_F64], NR_PTR),
    ]
}

/// Block 6 of the table's rows, in declaration order.
pub open spec fn rows_6() -> Seq<NativeModSig> {
    seq![
        row("decimal.js", true, "sqrt", None, "js_decimal_sqrt", &[], NR_PTR),
        row("decimal.js", true, "abs", None, "js_decimal_abs", &[], NR_PTR),
        row("decimal.js", true, "neg", None, "js_decimal_neg", &[], NR_PTR),
        row("decimal.js", true, "round", None, "js_decimal_round", &[], NR_PTR),
        row("decimal.js", true, "floor", None, "js_decimal_floor", &[], NR_PTR),
        row("decimal.js", true, "ceil", None, "js_decimal_ceil", &[], NR_PTR),
        row("decimal.js", true, "toFixed", None, "js_decimal_to_fixed", &[NA_F64], NR_STR),
        row("decimal.js", true, "toString", None, "js_decimal_to_string", &[], NR_STR),
        row("decimal.js", true, "toNumber", None, "js_decimal_to_number", &[], NR_F64),
        row("decimal.js", true, "valueOf", None, "js_decimal_to_number", &[], NR_F64),
        row("decimal.js", true, "eq", None, "js_decimal_eq_value", &[NA_F64], NR_F64),
        row("decimal.js", true, "lt", None, "js_decimal_lt_value", &[NA_F64], NR_F64),
        row("decimal.js", true, "lte", None, "js_decimal_lte_value", &[NA_F64], NR_F64),
        row("decimal.js", true, "gt", None, "js_decimal_gt_value", &[NA_F64], NR_F64),
        row("decimal.js", true, "gte", None, "js_decimal_gte_value", &[NA_F64], NR_F64),
        row("decimal.js", true, "cmp", None, "js_decimal_cmp_value", &[NA_F64], NR_F64),
        row("decimal.js", true, "isZero", None, "js_decimal_is_zero", &[], NR_F64),
        row("decimal.js", true, "isPositive", None, "js_decimal_is_positive", &[], NR_F64),
        row("decimal.js", true, "isNegative", None, "js_decimal_is_negative", &[], NR_F64),
        row("uuid", false, "v4", None, "js_uuid_v4", &[], NR_PTR),
        row("uuid", false, "v1", None, "js_uuid_v1", &[], NR_PTR),
        row("uuid", false, "v7", None, "js_uuid_v7", &[], NR_PTR),
        row("uuid", false, "validate", None, "js_uuid_validate", &[NA_F64], NR_F64),
        row("jsonwebtoken", false, "verify", None, "js_jwt_verify", &[NA_STR, NA_STR], NR_OBJ_FROM_JSON_STR),
        row("jsonwebtoken", false, "decode", None, "js_jwt_decode", &[NA_STR], NR_OBJ_FROM_JSON_STR),
        row("nodemailer", false, "createTransport", None, "js_nodemailer_create_transport", &[NA_PTR], NR_F64),
        row("nodemailer", true, "sendMail", None, "js_nodemailer_send_mail", &[NA_PTR], NR_PTR),
        row("nodemailer", true, "verify", None, "js_nodemailer_verify", &[], NR_PTR),
        row("dotenv", false, "config", None, "js_dotenv_config", &[], NR_F64),
        row("nanoid", false, "nanoid", None, "js_nanoid_sized", &[NA_F64], NR_STR),
        row("slugify", false, "default", None, "js_slugify_with_options", &[NA_STR, NA_STR, NA_STR], NR_STR),
        row("slugify", false, "slugify", None, "js_slugify_with_options", &[NA_STR, NA_STR, NA_STR], NR_STR),
    ]
}

fn build_rows_6() -> (v: Vec<NativeModSig>)
    ensures
        v@ == rows_6(),
{
    vec![
        sig("decimal.js", true, "sqrt", None, "js_decimal_sqrt", &[], NR_PTR),
        sig("decimal.js", true, "abs", None, "js_decimal_abs", &[], NR_PTR),
        sig("decimal.js", true, "neg", None, "js_decimal_neg", &[], NR_PTR),
        sig("decimal.js", true, "round", None, "js_decimal_round", &[], NR_PTR),
        sig("decimal.js", true, "floor", None, "js_decimal_floor", &[], NR_PTR),
        sig("decimal.js", true, "ceil", None, "js_decimal_ceil", &[], NR_PTR),
        sig("decimal.js", true, "toFixed", None, "js_decimal_to_fixed", &[NA_F64], NR_STR),
        sig("decimal.js", true, "toString", None, "js_decimal_to_string", &[], NR_STR),
        sig("decimal.js", true, "toNumber", None, "js_decimal_to_number", &[], NR_F64),
        sig("decimal.js", true, "valueOf", None, "js_decimal_to_number", &[], NR_F64),
        sig("decimal.js", true, "eq", None, "js_decimal_eq_value", &[NA_F64], NR_F64),
        sig("decimal.js", true, "lt", None, "js_decimal_lt_value", &[NA_F64], NR_F64),
        sig("decimal.js", true, "lte", None, "js_decimal_lte_value", &[NA_F64], NR_F64),
        sig("decimal.js", true, "gt", None, "js_decimal_gt_value", &[NA_F64], NR_F64),
        sig("decimal.js", true, "gte", None, "js_decimal_gte_value", &[NA_F64], NR_F64),
        sig("decimal.js", true, "cmp", None, "js_decimal_cmp_value", &[NA_F64], NR_F64),
        sig("decimal.js", true, "isZero", None, "js_decimal_is_zero", &[], NR_F64),
        sig("decimal.js", true, "isPositive", None, "js_decimal_is_positive", &[], NR_F64),
        sig("decimal.js", true, "isNegative", None, "js_decimal_is_negative", &[], NR_F64),
        sig("uuid", false, "v4", None, "js_uuid_v4", &[], NR_PTR),
        sig("uuid", false, "v1", None, "js_uuid_v1", &[], NR_PTR),
        sig("uuid", false, "v7", None, "js_uuid_v7", &[], NR_PTR),
        sig("uuid", false, "validate", None, "js_uuid_validate", &[NA_F64], NR_F64),
        sig("jsonwebtoken", false, "verify", None, "js_jwt_verify", &[NA_STR, NA_STR], NR_OBJ_FROM_JSON_STR),
        sig("jsonwebtoken", false, "decode", None, "js_jwt_decode", &[NA_STR], NR_OBJ_FROM_JSON_STR),
        sig("nodemailer", false, "createTransport", None, "js_nodemailer_create_transport", &[NA_PTR], NR_F64),
        sig("nodemailer", true, "sendMail", None, "js_nodemailer_send_mail", &[NA_PTR], NR_PTR),
        sig("nodemailer", true, "verify", None, "js_nodemailer_verify", &[], NR_PTR),
        sig("dotenv", false, "config", None, "js_dotenv_config", &[], NR_F64),
        sig("nanoid", false, "nanoid", None, "js_nanoid_sized", &[NA_F64], NR_STR),
        sig("slugify", false, "default", None, "js_slugify_with_options", &[NA_STR, NA_STR, NA_STR], NR_STR),
        sig("slugify", false, "slugify", None, "js_slugify_with_options", &[NA_STR, NA_STR, NA_STR], NR_STR),
    ]
}

/// Block 7 of the table's rows, in declaration order.
pub open spec fn rows_7() -> Seq<NativeModSig> {
    seq![
        row("validator", false, "isEmail", None, "js_validator_is_email", &[NA_STR], NR_F64),
        row("validator", false, "isURL", None, "js_validator_is_url", &[NA_STR], NR_F64),
        row("validator", false, "isUUID", None, "js_validator_is_uuid", &[NA_STR], NR_F64),
        row("validator", false, "isJSON", None, "js_validator_is_json", &[NA_STR], NR_F64),
        row("validator", false, "isEmpty", None, "js_validator_is_empty", &[NA_STR], NR_F64),
        row("exponential-backoff", false, "backOff", None, "backOff", &[NA_PTR, NA_F64], NR_PTR),
        row("argon2", false, "hash", None, "js_argon2_hash", &[NA_STR], NR_PTR),
        row("argon2", false, "verify", None, "js_argon2_verify", &[NA_STR, NA_STR], NR_PTR),
        row("bcrypt", false, "hash", None, "js_bcrypt_hash", &[NA_STR, NA_F64], NR_PTR),
        row("bcrypt", false, "compare", None, "js_bcrypt_compare", &[NA_STR, NA_STR], NR_PTR),
        row("perry/thread", false, "parallelMap", None, "js_thread_parallel_map", &[NA_F64, NA_F64], NR_F64),
        row("perry/thread", false, "parallelFilter", None, "js_thread_parallel_filter", &[NA_F64, NA_F64], NR_F64),
        row("perry/thread", false, "spawn", None, "js_thread_spawn", &[NA_F64], NR_F64),
        row("lodash", false, "chunk", None, "js_lodash_chunk", &[NA_PTR, NA_F64], NR_PTR),
        row("lodash", false, "compact", None, "js_lodash_compact", &[NA_PTR], NR_PTR),
        row("lodash", false, "drop", None, "js_lodash_drop", &[NA_PTR, NA_F64], NR_PTR),
        row("lodash", false, "first", None, "js_lodash_first", &[NA_PTR], NR_F64),
        row("lodash", false, "head", None, "js_lodash_first", &[NA_PTR], NR_F64),
        row("lodash", false, "last", None, "js_lodash_last", &[NA_PTR], NR_F64),
        row("lodash", false, "flatten", None, "js_lodash_flatten", &[NA_PTR], NR_PTR),
        row("lodash", false, "uniq", None, "js_lodash_uniq", &[NA_PTR], NR_PTR),
        row("lodash", false, "reverse", None, "js_lodash_reverse", &[NA_PTR], NR_PTR),
        row("lodash", false, "take", None, "js_lodash_take", &[NA_PTR, NA_F64], NR_PTR),
        row("lodash", false, "camelCase", None, "js_lodash_camel_case", &[NA_STR], NR_STR),
        row("lodash", false, "kebabCase", None, "js_lodash_kebab_case", &[NA_STR], NR_STR),
        row("lodash", false, "snakeCase", None, "js_lodash_snake_case", &[NA_STR], NR_STR),
        row("lodash", false, "clamp", None, "js_lodash_clamp", &[NA_F64, NA_F64, NA_F64], NR_F64),
        row("lodash", false, "range", None, "js_lodash_range", &[NA_F64, NA_F64, NA_F64], NR_PTR),
        row("lodash", false, "times", None, "js_lodash_times", &[NA_F64], NR_PTR),
        row("lodash", false, "size", None, "js_lodash_size", &[NA_F64], NR_F64),
        row("lodash", false, "tail", None, "js_lodash_tail", &[NA_PTR], NR_PTR),
        row("lodash", false, "sum", None, "js_lodash_sum", &[NA_PTR], NR_F64),
    ]
}

fn build_rows_7() -> (v: Vec<NativeModSig>)
    ensures
        v@ == rows_7(),
{
    vec![
        sig("validator", false, "isEmail", None, "js_validator_is_email", &[NA_STR], NR_F64),
        sig("validator", false, "isURL", None, "js_validator_is_url", &[NA_STR], NR_F64),
        sig("validator", false, "isUUID", None, "js_validator_is_uuid", &[NA_STR], NR_F64),
        sig("validator", false, "isJSON", None, "js_validator_is_json", &[NA_STR], NR_F64),
        sig("validator", false, "isEmpty", None, "js_validator_is_empty", &[NA_STR], NR_F64),
        sig("exponential-backoff", false, "backOff", None, "backOff", &[NA_PTR, NA_F64], NR_PTR),
        sig("argon2", false, "hash", None, "js_argon2_hash", &[NA_STR], NR_PTR),
        sig("argon2", false, "verify", None, "js_argon2_verify", &[NA_STR, NA_STR], NR_PTR),
        sig("bcrypt", false, "hash", None, "js_bcrypt_hash", &[NA_STR, NA_F64], NR_PTR),
        sig("bcrypt", false, "compare", None, "js_bcrypt_compare", &[NA_STR, NA_STR], NR_PTR),
        sig("perry/thread", false, "parallelMap", None, "js_thread_parallel_map", &[NA_F64, NA_F64], NR_F64),
        sig("perry/thread", false, "parallelFilter", None, "js_thread_parallel_filter", &[NA_F64, NA_F64], NR_F64),
        sig("perry/thread", false, "spawn", None, "js_thread_spawn", &[NA_F64], NR_F64),
        sig("lodash", false, "chunk", None, "js_lodash_chunk", &[NA_PTR, NA_F64], NR_PTR),
        sig("lodash", false, "compact", None, "js_lodash_compact", &[NA_PTR], NR_PTR),
        sig("lodash", false, "drop", None, "js_lodash_drop", &[NA_PTR, NA_F64], NR_PTR),
        sig("lodash", false, "first", None, "js_lodash_first", &[NA_PTR], NR_F64),
        sig("lodash", false, "head", None, "js_lodash_first", &[NA_PTR], NR_F64),
        sig("lodash", false, "last", None, "js_lodash_last", &[NA_PTR], NR_F64),
        sig("lodash", false, "flatten", None, "js_lodash_flatten", &[NA_PTR], NR_PTR),
        sig("lodash", false, "uniq", None, "js_lodash_uniq", &[NA_PTR], NR_PTR),
        sig("lodash", false, "reverse", None, "js_lodash_reverse", &[NA_PTR], NR_PTR),
        sig("lodash", false, "take", None, "js_lodash_take", &[NA_PTR, NA_F64], NR_PTR),
        sig("lodash", false, "camelCase", None, "js_lodash_camel_case", &[NA_STR], NR_STR),
        sig("lodash", false, "kebabCase", None, "js_lodash_kebab_case", &[NA_STR], NR_STR),
        sig("lodash", false, "snakeCase", None, "js_lodash_snake_case", &[NA_STR], NR_STR),
        sig("lodash", false, "clamp", None, "js_lodash_clamp", &[NA_F64, NA_F64, NA_F64], NR_F64),
        sig("lodash", false, "range", None, "js_lodash_range", &[NA_F64, NA_F64, NA_F64], NR_PTR),
        sig("lodash", false, "times", None, "js_lodash_times", &[NA_F64], NR_PTR),
        sig("lodash", false, "size", None, "js_lodash_size", &[NA_F64], NR_F64),
        sig("lodash", false, "tail", None, "js_lodash_tail", &[NA_PTR], NR_PTR),
        sig("lodash", false, "sum", None, "js_lodash_sum", &[NA_PTR], NR_F64),
    ]
}

/// Block 8 of the table's rows, in declaration order.
pub open spec fn rows_8() -> Seq<NativeModSig> {
    seq![
        row("lodash", false, "mean", None, "js_lodash_mean", &[NA_PTR], NR_F64),
        row("lodash", false, "sumBy", None, "js_lodash_sum_by", &[NA_PTR, NA_F64], NR_F64),
        row("lodash", false, "meanBy", None, "js_lodash_mean_by", &[NA_PTR, NA_F64], NR_F64),
        row("lodash", false, "max", None, "js_lodash_max", &[NA_PTR], NR_F64),
        row("lodash", false, "min", None, "js_lodash_min", &[NA_PTR], NR_F64),
        row("lodash", false, "maxBy", None, "js_lodash_max_by", &[NA_PTR, NA_F64], NR_F64),
        row("lodash", false, "minBy", None, "js_lodash_min_by", &[NA_PTR, NA_F64], NR_F64),
        row("lodash", false, "inRange", None, "js_lodash_in_range", &[NA_F64, NA_F64, NA_F64], NR_F64),
        row("dayjs", false, "default", None, "js_dayjs_now", &[], NR_F64),
        row("dayjs", false, "dayjs", None, "js_dayjs_now", &[], NR_F64),
        row("dayjs", true, "format", None, "js_dayjs_format", &[NA_STR], NR_STR),
        row("dayjs", true, "year", None, "js_dayjs_year", &[], NR_F64),
        row("dayjs", true, "month", None, "js_dayjs_month", &[], NR_F64),
        row("dayjs", true, "date", None, "js_dayjs_date", &[], NR_F64),
        row("dayjs", true, "day", None, "js_dayjs_day", &[], NR_F64),
        row("dayjs", true, "hour", None, "js_dayjs_hour", &[], NR_F64),
        row("dayjs", true, "minute", None, "js_dayjs_minute", &[], NR_F64),
        row("dayjs", true, "second", None, "js_dayjs_second", &[], NR_F64),
        row("dayjs", true, "millisecond", None, "js_dayjs_millisecond", &[], NR_F64),
        row("dayjs", true, "valueOf", None, "js_dayjs_value_of", &[], NR_F64),
        row("dayjs", true, "unix", None, "js_dayjs_unix", &[], NR_F64),
        row("dayjs", true, "toISOString", None, "js_dayjs_to_iso_string", &[], NR_STR),
        row("dayjs", true, "add", None, "js_dayjs_add", &[NA_F64, NA_STR], NR_F64),
        row("dayjs", true, "subtract", None, "js_dayjs_subtract", &[NA_F64, NA_STR], NR_F64),
        row("dayjs", true, "startOf", None, "js_dayjs_start_of", &[NA_STR], NR_F64),
        row("dayjs", true, "endOf", None, "js_dayjs_end_of", &[NA_STR], NR_F64),
        row("dayjs", true, "isBefore", None, "js_dayjs_is_before", &[NA_JSV], NR_F64),
        row("dayjs", true, "isAfter", None, "js_dayjs_is_after", &[NA_JSV], NR_F64),
        row("dayjs", true, "isSame", None, "js_dayjs_is_same", &[NA_JSV], NR_F64),
        row("dayjs", true, "isValid", None, "js_dayjs_is_valid", &[], NR_F64),
        row("dayjs", true, "diff", None, "js_dayjs_diff", &[NA_JSV, NA_STR], NR_F64),
        row("dayjs", true, "clone", None, "js_dayjs_value_of", &[], NR_F64),
    ]
}

fn build_rows_8() -> (v: Vec<NativeModSig>)
    ensures
        v@ == rows_8(),
{
    vec![
        sig("lodash", false, "mean", None, "js_lodash_mean", &[NA_PTR], NR_F64),
        sig("lodash", false, "sumBy", None, "js_lodash_sum_by", &[NA_PTR, NA_F64], NR_F64),
        sig("lodash", false, "meanBy", None, "js_lodash_mean_by", &[NA_PTR, NA_F64], NR_F64),
        sig("lodash", false, "max", None, "js_lodash_max", &[NA_PTR], NR_F64),
        sig("lodash", false, "min", None, "js_lodash_min", &[NA_PTR], NR_F64),
        sig("lodash", false, "maxBy", None, "js_lodash_max_by", &[NA_PTR, NA_F64], NR_F64),
        sig("lodash", false, "minBy", None, "js_lodash_min_by", &[NA_PTR, NA_F64], NR_F64),
        sig("lodash", false, "inRange", None, "js_lodash_in_range", &[NA_F64, NA_F64, NA_F64], NR_F64),
        sig("dayjs", false, "default", None, "js_dayjs_now", &[], NR_F64),
        sig("dayjs", false, "dayjs", None, "js_dayjs_now", &[], NR_F64),
        sig("dayjs", true, "format", None, "js_dayjs_format", &[NA_STR], NR_STR),
        sig("dayjs", true, "year", None, "js_dayjs_year", &[], NR_F64),
        sig("dayjs", true, "month", None, "js_dayjs_month", &[], NR_F64),
        sig("dayjs", true, "date", None, "js_dayjs_date", &[], NR_F64),
        sig("dayjs", true, "day", None, "js_dayjs_day", &[], NR_F64),
        sig("dayjs", true, "hour", None, "js_dayjs_hour", &[], NR_F64),
        sig("dayjs", true, "minute", None, "js_dayjs_minute", &[], NR_F64),
        sig("dayjs", true, "second", None, "js_dayjs_second", &[], NR_F64),
        sig("dayjs", true, "millisecond", None, "js_dayjs_millisecond", &[], NR_F64),
        sig("dayjs", true, "valueOf", None, "js_dayjs_value_of", &[], NR_F64),
        sig("dayjs", true, "unix", None, "js_dayjs_unix", &[], NR_F64),
        sig("dayjs", true, "toISOString", None, "js_dayjs_to_iso_string", &[], NR_STR),
        sig("dayjs", true, "add", None, "js_dayjs_add", &[NA_F64, NA_STR], NR_F64),
        sig("dayjs", true, "subtract", None, "js_dayjs_subtract", &[NA_F64, NA_STR], NR_F64),
        sig("dayjs", true, "startOf", None, "js_dayjs_start_of", &[NA_STR], NR_F64),
        sig("dayjs", true, "endOf", None, "js_dayjs_end_of", &[NA_STR], NR_F64),
        sig("dayjs", true, "isBefore", None, "js_dayjs_is_before", &[NA_JSV], NR_F64),
        sig("dayjs", true, "isAfter", None, "js_dayjs_is_after", &[NA_JSV], NR_F64),
        sig("dayjs", true, "isSame", None, "js_dayjs_is_same", &[NA_JSV], NR_F64),
        sig("dayjs", true, "isValid", None, "js_dayjs_is_valid", &[], NR_F64),
        sig("dayjs", true, "diff", None, "js_dayjs_diff", &[NA_JSV, NA_STR], NR_F64),
        sig("dayjs", true, "clone", None, "js_dayjs_value_of", &[], NR_F64),
    ]
}

/// Block 9 of the table's rows, in declaration order.
pub open spec fn rows_9() -> Seq<NativeModSig> {
    seq![
        row("date-fns", false, "format", None, "js_datefns_format", &[NA_F64, NA_STR], NR_STR),
        row("date-fns", false, "parseISO", None, "js_datefns_parse_iso", &[NA_STR], NR_F64),
        row("date-fns", false, "addDays", None, "js_datefns_add_days", &[NA_F64, NA_F64], NR_F64),
        row("date-fns", false, "addMonths", None, "js_datefns_add_months", &[NA_F64, NA_F64], NR_F64),
        row("date-fns", false, "addYears", None, "js_datefns_add_years", &[NA_F64, NA_F64], NR_F64),
        row("date-fns", false, "differenceInDays", None, "js_datefns_difference_in_days", &[NA_F64, NA_F64], NR_F64),
        row("date-fns", false, "differenceInHours", None, "js_datefns_difference_in_hours", &[NA_F64, NA_F64], NR_F64),
        row("date-fns", false, "differenceInMinutes", None, "js_datefns_difference_in_minutes", &[NA_F64, NA_F64], NR_F64),
        row("date-fns", false, "isAfter", None, "js_datefns_is_after", &[NA_F64, NA_F64], NR_F64),
        row("date-fns", false, "isBefore", None, "js_datefns_is_before", &[NA_F64, NA_F64], NR_F64),
        row("date-fns", false, "startOfDay", None, "js_datefns_start_of_day", &[NA_F64], NR_F64),
        row("date-fns", false, "endOfDay", None, "js_datefns_end_of_day", &[NA_F64], NR_F64),
        row("moment", false, "default", None, "js_moment_now", &[], NR_F64),
        row("moment", false, "moment", None, "js_moment_now", &[], NR_F64),
        row("sharp", false, "default", None, "js_sharp_from_file", &[NA_STR], NR_PTR),
        row("sharp", false, "sharp", None, "js_sharp_from_file", &[NA_STR], NR_PTR),
        row("sharp", true, "resize", None, "js_sharp_resize", &[NA_F64, NA_F64], NR_PTR),
        row("sharp", true, "rotate", None, "js_sharp_rotate", &[NA_F64], NR_PTR),
        row("sharp", true, "flip", None, "js_sharp_flip", &[], NR_PTR),
        row("sharp", true, "flop", None, "js_sharp_flop", &[], NR_PTR),
        row("sharp", true, "grayscale", None, "js_sharp_grayscale", &[], NR_PTR),
        row("sharp", true, "blur", None, "js_sharp_blur", &[NA_F64], NR_PTR),
        row("sharp", true, "jpeg", None, "js_sharp_jpeg", &[NA_F64], NR_PTR),
        row("sharp", true, "png", None, "js_sharp_png", &[], NR_PTR),
        row("sharp", true, "webp", None, "js_sharp_webp", &[NA_F64], NR_PTR),
        row("sharp", true, "toFile", None, "js_sharp_to_file", &[NA_STR], NR_PTR),
        row("sharp", true, "toBuffer", None, "js_sharp_to_buffer", &[], NR_PTR),
        row("sharp", true, "metadata", None, "js_sharp_metadata", &[], NR_PTR),
        row("sharp", true, "width", None, "js_sharp_width", &[], NR_F64),
        row("sharp", true, "height", None, "js_sharp_height", &[], NR_F64),
        row("cheerio", false, "load", None, "js_cheerio_load", &[NA_STR], NR_PTR),
        row("cheerio", true, "select", None, "js_cheerio_select", &[NA_STR], NR_PTR),
    ]
}

fn build_rows_9() -> (v: Vec<NativeModSig>)
    ensures
        v@ == rows_9(),
{
    vec![
        sig("date-fns", false, "format", None, "js_datefns_format", &[NA_F64, NA_STR], NR_STR),
        sig("date-fns", false, "parseISO", None, "js_datefns_parse_iso", &[NA_STR], NR_F64),
        sig("date-fns", false, "addDays", None, "js_datefns_add_days", &[NA_F64, NA_F64], NR_F64),
        sig("date-fns", false, "addMonths", None, "js_datefns_add_months", &[NA_F64, NA_F64], NR_F64),
        sig("date-fns", false, "addYears", None, "js_datefns_add_years", &[NA_F64, NA_F64], NR_F64),
        sig("date-fns", false, "differenceInDays", None, "js_datefns_difference_in_days", &[NA_F64, NA_F64], NR_F64),
        sig("date-fns", false, "differenceInHours", None, "js_datefns_difference_in_hours", &[NA_F64, NA_F64], NR_F64),
        sig("date-fns", false, "differenceInMinutes", None, "js_datefns_difference_in_minutes", &[NA_F64, NA_F64], NR_F64),
        sig("date-fns", false, "isAfter", None, "js_datefns_is_after", &[NA_F64, NA_F64], NR_F64),
        sig("date-fns", false, "isBefore", None, "js_datefns_is_before", &[NA_F64, NA_F64], NR_F64),
        sig("date-fns", false, "startOfDay", None, "js_datefns_start_of_day", &[NA_F64], NR_F64),
        sig("date-fns", false, "endOfDay", None, "js_datefns_end_of_day", &[NA_F64], NR_F64),
        sig("moment", false, "default", None, "js_moment_now", &[], NR_F64),
        sig("moment", false, "moment", None, "js_moment_now", &[], NR_F64),
        sig("sharp", false, "default", None, "js_sharp_from_file", &[NA_STR], NR_PTR),
        sig("sharp", false, "sharp", None, "js_sharp_from_file", &[NA_STR], NR_PTR),
        sig("sharp", true, "resize", None, "js_sharp_resize", &[NA_F64, NA_F64], NR_PTR),
        sig("sharp", true, "rotate", None, "js_sharp_rotate", &[NA_F64], NR_PTR),
        sig("sharp", true, "flip", None, "js_sharp_flip", &[], NR_PTR),
        sig("sharp", true, "flop", None, "js_sharp_flop", &[], NR_PTR),
        sig("sharp", true, "grayscale", None, "js_sharp_grayscale", &[], NR_PTR),
        sig("sharp", true, "blur", None, "js_sharp_blur", &[NA_F64], NR_PTR),
        sig("sharp", true, "jpeg", None, "js_sharp_jpeg", &[NA_F64], NR_PTR),
        sig("sharp", true, "png", None, "js_sharp_png", &[], NR_PTR),
        sig("sharp", true, "webp", None, "js_sharp_webp", &[NA_F64], NR_PTR),
        sig("sharp", true, "toFile", None, "js_sharp_to_file", &[NA_STR], NR_PTR),
        sig("sharp", true, "toBuffer", None, "js_sharp_to_buffer", &[], NR_PTR),
        sig("sharp", true, "metadata", None, "js_sharp_metadata", &[], NR_PTR),
        sig("sharp", true, "width", None, "js_sharp_width", &[], NR_F64),
        sig("sharp", true, "height", None, "js_sharp_height", &[], NR_F64),
        sig("cheerio", false, "load", None, "js_cheerio_load", &[NA_STR], NR_PTR),
        sig("cheerio", true, "select", None, "js_cheerio_select", &[NA_STR], NR_PTR),
    ]
}

/// Block 10 of the table's rows, in declaration order.
pub open spec fn rows_10() -> Seq<NativeModSig> {
    seq![
        row("cheerio", true, "text", None, "js_cheerio_selection_text", &[], NR_STR),
        row("cheerio", true, "html", None, "js_cheerio_selection_html", &[], NR_STR),
        row("cheerio", true, "attr", None, "js_cheerio_selection_attr", &[NA_STR], NR_STR),
        row("cheerio", true, "length", None, "js_cheerio_selection_length", &[], NR_F64),
        row("cheerio", true, "first", None, "js_cheerio_selection_first", &[], NR_PTR),
        row("cheerio", true, "last", None, "js_cheerio_selection_last", &[], NR_PTR),
        row("cheerio", true, "eq", None, "js_cheerio_selection_eq", &[NA_F64], NR_PTR),
        row("cheerio", true, "find", None, "js_cheerio_selection_find", &[NA_STR], NR_PTR),
        row("cheerio", true, "children", None, "js_cheerio_selection_children", &[], NR_PTR),
        row("cheerio", true, "parent", None, "js_cheerio_selection_parent", &[], NR_PTR),
        row("cheerio", true, "hasClass", None, "js_cheerio_selection_has_class", &[NA_STR], NR_F64),
        row("zlib", false, "gzipSync", None, "js_zlib_gzip_sync", &[NA_STR], NR_STR),
        row("zlib", false, "gunzipSync", None, "js_zlib_gunzip_sync", &[NA_STR], NR_STR),
        row("zlib", false, "deflateSync", None, "js_zlib_deflate_sync", &[NA_STR], NR_STR),
        row("zlib", false, "inflateSync", None, "js_zlib_inflate_sync", &[NA_STR], NR_STR),
        row("zlib", false, "gzip", None, "js_zlib_gzip", &[NA_STR], NR_PTR),
        row("zlib", false, "gunzip", None, "js_zlib_gunzip", &[NA_STR], NR_PTR),
        row("zlib", false, "createBrotliDecompress", None, "js_zlib_create_brotli_decompress", &[NA_F64], NR_PTR),
        row("cron", false, "validate", None, "js_cron_validate", &[NA_STR], NR_F64),
        row("cron", false, "schedule", None, "js_cron_schedule", &[NA_STR, NA_JSV], NR_PTR),
        row("cron", false, "describe", None, "js_cron_describe", &[NA_STR], NR_STR),
        row("cron", true, "start", None, "js_cron_job_start", &[], NR_VOID),
        row("cron", true, "stop", None, "js_cron_job_stop", &[], NR_VOID),
        row("cron", true, "isRunning", None, "js_cron_job_is_running", &[], NR_F64),
        row("cron", true, "nextDate", None, "js_cron_next_date", &[], NR_STR),
        row("perry/tui", false, "Text", None, "js_perry_tui_text", &[NA_STR], NR_PTR),
        row("perry/tui", false, "Box", None, "js_perry_tui_box", &[], NR_PTR),
        row("perry/tui", false, "render", None, "js_perry_tui_render", &[NA_PTR], NR_VOID),
        row("perry/tui", false, "enter", None, "js_perry_tui_enter", &[], NR_VOID),
        row("perry/tui", false, "state", None, "js_perry_tui_state_alloc", &[NA_F64], NR_PTR),
        row("perry/tui", true, "get", Some("State"), "js_perry_tui_state_get", &[], NR_F64),
        row("perry/tui", true, "set", Some("State"), "js_perry_tui_state_set", &[NA_F64], NR_VOID),
    ]
}

fn build_rows_10() -> (v: Vec<NativeModSig>)
    ensures
        v@ == rows_10(),
{
    vec![
        sig("cheerio", true, "text", None, "js_cheerio_selection_text", &[], NR_STR),
        sig("cheerio", true, "html", None, "js_cheerio_selection_html", &[], NR_STR),
        sig("cheerio", true, "attr", None, "js_cheerio_selection_attr", &[NA_STR], NR_STR),
        sig("cheerio", true, "length", None, "js_cheerio_selection_length", &[], NR_F64),
        sig("cheerio", true, "first", None, "js_cheerio_selection_first", &[], NR_PTR),
        sig("cheerio", true, "last", None, "js_cheerio_selection_last", &[], NR_PTR),
        sig("cheerio", true, "eq", None, "js_cheerio_selection_eq", &[NA_F64], NR_PTR),
        sig("cheerio", true, "find", None, "js_cheerio_selection_find", &[NA_STR], NR_PTR),
        sig("cheerio", true, "children", None, "js_cheerio_selection_children", &[], NR_PTR),
        sig("cheerio", true, "parent", None, "js_cheerio_selection_parent", &[], NR_PTR),
        sig("cheerio", true, "hasClass", None, "js_cheerio_selection_has_class", &[NA_STR], NR_F64),
        sig("zlib", false, "gzipSync", None, "js_zlib_gzip_sync", &[NA_STR], NR_STR),
        sig("zlib", false, "gunzipSync", None, "js_zlib_gunzip_sync", &[NA_STR], NR_STR),
        sig("zlib", false, "deflateSync", None, "js_zlib_deflate_sync", &[NA_STR], NR_STR),
        sig("zlib", false, "inflateSync", None, "js_zlib_inflate_sync", &[NA_STR], NR_STR),
        sig("zlib", false, "gzip", None, "js_zlib_gzip", &[NA_STR], NR_PTR),
        sig("zlib", false, "gunzip", None, "js_zlib_gunzip", &[NA_STR], NR_PTR),
        sig("zlib", false, "createBrotliDecompress", None, "js_zlib_create_brotli_decompress", &[NA_F64], NR_PTR),
        sig("cron", false, "validate", None, "js_cron_validate", &[NA_STR], NR_F64),
        sig("cron", false, "schedule", None, "js_cron_schedule", &[NA_STR, NA_JSV], NR_PTR),
        sig("cron", false, "describe", None, "js_cron_describe", &[NA_STR], NR_STR),
        sig("cron", true, "start", None, "js_cron_job_start", &[], NR_VOID),
        sig("cron", true, "stop", None, "js_cron_job_stop", &[], NR_VOID),
        sig("cron", true, "isRunning", None, "js_cron_job_is_running", &[], NR_F64),
        sig("cron", true, "nextDate", None, "js_cron_next_date", &[], NR_STR),
        sig("perry/tui", false, "Text", None, "js_perry_tui_text", &[NA_STR], NR_PTR),
        sig("perry/tui", false, "Box", None, "js_perry_tui_box", &[], NR_PTR),
        sig("perry/tui", false, "render", None, "js_perry_tui_render", &[NA_PTR], NR_VOID),
        sig("perry/tui", false, "enter", None, "js_perry_tui_enter", &[], NR_VOID),
        sig("perry/tui", false, "state", None, "js_perry_tui_state_alloc", &[NA_F64], NR_PTR),
        sig("perry/tui", true, "get", Some("State"), "js_perry_tui_state_get", &[], NR_F64),
        sig("perry/tui", true, "set", Some("State"), "js_perry_tui_state_set", &[NA_F64], NR_VOID),
    ]
}

/// Block 11 of the table's rows, in declaration order.
pub open spec fn rows_11() -> Seq<NativeModSig> {
    seq![
        row("perry/tui", false, "useInput", None, "js_perry_tui_use_input", &[NA_PTR], NR_VOID),
        row("perry/tui", false, "run", None, "js_perry_tui_run", &[NA_PTR], NR_VOID),
        row("perry/tui", false, "exit", None, "js_perry_tui_exit", &[], NR_VOID),
        row("perry/tui", false, "boxSetFlexDirection", None, "js_perry_tui_box_set_flex_direction", &[NA_PTR, NA_STR], NR_VOID),
        row("perry/tui", false, "boxSetJustifyContent", None, "js_perry_tui_box_set_justify_content", &[NA_PTR, NA_STR], NR_VOID),
        row("perry/tui", false, "boxSetAlignItems", None, "js_perry_tui_box_set_align_items", &[NA_PTR, NA_STR], NR_VOID),
        row("perry/tui", false, "boxSetGap", None, "js_perry_tui_box_set_gap", &[NA_PTR, NA_F64], NR_VOID),
        row("perry/tui", false, "boxSetPadding", None, "js_perry_tui_box_set_padding", &[NA_PTR, NA_F64], NR_VOID),
        row("perry/tui", false, "boxSetWidth", None, "js_perry_tui_box_set_width", &[NA_PTR, NA_F64], NR_VOID),
        row("perry/tui", false, "boxSetHeight", None, "js_perry_tui_box_set_height", &[NA_PTR, NA_F64], NR_VOID),
        row("perry/tui", false, "boxSetFlexGrow", None, "js_perry_tui_box_set_flex_grow", &[NA_PTR, NA_F64], NR_VOID),
        row("perry/tui", false, "boxSetPaddingEach", None, "js_perry_tui_box_set_padding_each", &[NA_PTR, NA_F64, NA_F64, NA_F64, NA_F64], NR_VOID),
        row("perry/tui", false, "boxSetFlexShrink", None, "js_perry_tui_box_set_flex_shrink", &[NA_PTR, NA_F64], NR_VOID),
        row("perry/tui", false, "boxSetFlexBasis", None, "js_perry_tui_box_set_flex_basis", &[NA_PTR, NA_F64], NR_VOID),
        row("perry/tui", false, "boxSetFlexBasisPct", None, "js_perry_tui_box_set_flex_basis_pct", &[NA_PTR, NA_F64], NR_VOID),
        row("perry/tui", false, "boxSetWidthPct", None, "js_perry_tui_box_set_width_pct", &[NA_PTR, NA_F64], NR_VOID),
        row("perry/tui", false, "boxSetHeightPct", None, "js_perry_tui_box_set_height_pct", &[NA_PTR, NA_F64], NR_VOID),
        row("perry/tui", false, "TextStyled", None, "js_perry_tui_text_styled", &[NA_STR, NA_STR, NA_STR, NA_F64], NR_PTR),
        row("perry/tui", false, "Spacer", None, "js_perry_tui_spacer", &[], NR_PTR),
        row("perry/tui", false, "ProgressBar", None, "js_perry_tui_progress_bar", &[NA_F64, NA_F64, NA_F64], NR_PTR),
        row("perry/tui", false, "Spinner", None, "js_perry_tui_spinner", &[NA_F64], NR_PTR),
        row("perry/tui", false, "Input", None, "js_perry_tui_input", &[NA_STR], NR_PTR),
        row("perry/tui", false, "List", None, "js_perry_tui_list", &[NA_PTR, NA_F64], NR_PTR),
        row("perry/tui", false, "Select", None, "js_perry_tui_select", &[NA_PTR, NA_F64], NR_PTR),
        row("perry/tui", false, "TextArea", None, "js_perry_tui_text_area", &[NA_STR], NR_PTR),
        row("perry/tui", false, "Table", None, "js_perry_tui_table", &[NA_PTR, NA_PTR, NA_F64], NR_PTR),
        row("perry/tui", false, "Tabs", None, "js_perry_tui_tabs", &[NA_PTR, NA_F64, NA_PTR], NR_PTR),
        row("perry/tui", false, "InputAt", None, "js_perry_tui_input_at", &[NA_STR, NA_F64], NR_PTR),
        row("perry/tui", false, "AnimatedSpinner", None, "js_perry_tui_animated_spinner", &[NA_F64, NA_PTR], NR_PTR),
        row("perry/tui", false, "useState", None, "js_perry_tui_use_state", &[NA_F64], NR_F64),
        row("perry/tui", false, "useStateSet", None, "js_perry_tui_use_state_set", &[NA_F64, NA_F64], NR_VOID),
        row("perry/tui", false, "useStateTuple", None, "js_perry_tui_use_state_tuple", &[NA_F64], NR_PTR),
    ]
}

fn build_rows_11() -> (v: Vec<NativeModSig>)
    ensures
        v@ == rows_11(),
{
    vec![
        sig("perry/tui", false, "useInput", None, "js_perry_tui_use_input", &[NA_PTR], NR_VOID),
        sig("perry/tui", false, "run", None, "js_perry_tui_run", &[NA_PTR], NR_VOID),
        sig("perry/tui", false, "exit", None, "js_perry_tui_exit", &[], NR_VOID),
        sig("perry/tui", false, "boxSetFlexDirection", None, "js_perry_tui_box_set_flex_direction", &[NA_PTR, NA_STR], NR_VOID),
        sig("perry/tui", false, "boxSetJustifyContent", None, "js_perry_tui_box_set_justify_content", &[NA_PTR, NA_STR], NR_VOID),
        sig("perry/tui", false, "boxSetAlignItems", None, "js_perry_tui_box_set_align_items", &[NA_PTR, NA_STR], NR_VOID),
        sig("perry/tui", false, "boxSetGap", None, "js_perry_tui_box_set_gap", &[NA_PTR, NA_F64], NR_VOID),
        sig("perry/tui", false, "boxSetPadding", None, "js_perry_tui_box_set_padding", &[NA_PTR, NA_F64], NR_VOID),
        sig("perry/tui", false, "boxSetWidth", None, "js_perry_tui_box_set_width", &[NA_PTR, NA_F64], NR_VOID),
        sig("perry/tui", false, "boxSetHeight", None, "js_perry_tui_box_set_height", &[NA_PTR, NA_F64], NR_VOID),
        sig("perry/tui", false, "boxSetFlexGrow", None, "js_perry_tui_box_set_flex_grow", &[NA_PTR, NA_F64], NR_VOID),
        sig("perry/tui", false, "boxSetPaddingEach", None, "js_perry_tui_box_set_padding_each", &[NA_PTR, NA_F64, NA_F64, NA_F64, NA_F64], NR_VOID),
        sig("perry/tui", false, "boxSetFlexShrink", None, "js_perry_tui_box_set_flex_shrink", &[NA_PTR, NA_F64], NR_VOID),
        sig("perry/tui", false, "boxSetFlexBasis", None, "js_perry_tui_box_set_flex_basis", &[NA_PTR, NA_F64], NR_VOID),
        sig("perry/tui", false, "boxSetFlexBasisPct", None, "js_perry_tui_box_set_flex_basis_pct", &[NA_PTR, NA_F64], NR_VOID),
        sig("perry/tui", false, "boxSetWidthPct", None, "js_perry_tui_box_set_width_pct", &[NA_PTR, NA_F64], NR_VOID),
        sig("perry/tui", false, "boxSetHeightPct", None, "js_perry_tui_box_set_height_pct", &[NA_PTR, NA_F64], NR_VOID),
        sig("perry/tui", false, "TextStyled", None, "js_perry_tui_text_styled", &[NA_STR, NA_STR, NA_STR, NA_F64], NR_PTR),
        sig("perry/tui", false, "Spacer", None, "js_perry_tui_spacer", &[], NR_PTR),
        sig("perry/tui", false, "ProgressBar", None, "js_perry_tui_progress_bar", &[NA_F64, NA_F64, NA_F64], NR_PTR),
        sig("perry/tui", false, "Spinner", None, "js_perry_tui_spinner", &[NA_F64], NR_PTR),
        sig("perry/tui", false, "Input", None, "js_perry_tui_input", &[NA_STR], NR_PTR),
        sig("perry/tui", false, "List", None, "js_perry_tui_list", &[NA_PTR, NA_F64], NR_PTR),
        sig("perry/tui", false, "Select", None, "js_perry_tui_select", &[NA_PTR, NA_F64], NR_PTR),
        sig("perry/tui", false, "TextArea", None, "js_perry_tui_text_area", &[NA_STR], NR_PTR),
        sig("perry/tui", false, "Table", None, "js_perry_tui_table", &[NA_PTR, NA_PTR, NA_F64], NR_PTR),
        sig("perry/tui", false, "Tabs", None, "js_perry_tui_tabs", &[NA_PTR, NA_F64, NA_PTR], NR_PTR),
        sig("perry/tui", false, "InputAt", None, "js_perry_tui_input_at", &[NA_STR, NA_F64], NR_PTR),
        sig("perry/tui", false, "AnimatedSpinner", None, "js_perry_tui_animated_spinner", &[NA_F64, NA_PTR], NR_PTR),
        sig("perry/tui", false, "useState", None, "js_perry_tui_use_state", &[NA_F64], NR_F64),
        sig("perry/tui", false, "useStateSet", None, "js_perry_tui_use_state_set", &[NA_F64, NA_F64], NR_VOID),
        sig("perry/tui", false, "useStateTuple", None, "js_perry_tui_use_state_tuple", &[NA_F64], NR_PTR),
    ]
}

/// Block 12 of the table's rows, in declaration order.
pub open spec fn rows_12() -> Seq<NativeModSig> {
    seq![
        row("perry/tui", false, "useEffect", None, "js_perry_tui_use_effect", &[NA_PTR, NA_PTR], NR_VOID),
        row("perry/tui", false, "useMemo", None, "js_perry_tui_use_memo", &[NA_PTR, NA_PTR], NR_F64),
        row("perry/tui", false, "useRef", None, "js_perry_tui_use_ref", &[NA_F64], NR_PTR),
        row("perry/tui", true, "get", Some("RefBox"), "js_perry_tui_ref_get", &[], NR_F64),
        row("perry/tui", true, "set", Some("RefBox"), "js_perry_tui_ref_set", &[NA_F64], NR_VOID),
        row("perry/tui", false, "useApp", None, "js_perry_tui_use_app", &[], NR_PTR),
        row("perry/tui", true, "exit", Some("TuiApp"), "js_perry_tui_app_exit", &[], NR_VOID),
        row("perry/tui", true, "waitUntilExit", Some("TuiApp"), "js_perry_tui_app_wait_until_exit", &[], NR_VOID),
        row("perry/tui", false, "useStdout", None, "js_perry_tui_use_stdout", &[], NR_PTR),
        row("perry/tui", true, "write", Some("TuiStdout"), "js_perry_tui_stdout_write", &[NA_STR], NR_VOID),
        row("perry/tui", true, "columns", Some("TuiStdout"), "js_perry_tui_stdout_columns", &[], NR_F64),
        row("perry/tui", true, "rows", Some("TuiStdout"), "js_perry_tui_stdout_rows", &[], NR_F64),
        row("perry/tui", false, "waitUntilExit", None, "js_perry_tui_wait_until_exit", &[], NR_VOID),
        row("perry/tui", false, "useFocus", None, "js_perry_tui_use_focus", &[NA_F64, NA_F64], NR_F64),
        row("perry/tui", false, "focusNext", None, "js_perry_tui_focus_next", &[], NR_VOID),
        row("perry/tui", false, "focusPrevious", None, "js_perry_tui_focus_previous", &[], NR_VOID),
        row("perry/tui", false, "focus", None, "js_perry_tui_focus", &[NA_F64], NR_VOID),
        row("perry/tui", false, "useFocusManager", None, "js_perry_tui_use_focus_manager", &[], NR_PTR),
        row("perry/tui", true, "focusNext", Some("FocusManager"), "js_perry_tui_focus_manager_focus_next", &[], NR_VOID),
        row("perry/tui", true, "focusPrevious", Some("FocusManager"), "js_perry_tui_focus_manager_focus_previous", &[], NR_VOID),
        row("perry/tui", true, "focus", Some("FocusManager"), "js_perry_tui_focus_manager_focus", &[NA_F64], NR_VOID),
        row("readline", false, "createInterface", None, "js_readline_create_interface", &[NA_F64], NR_PTR),
        row("readline", true, "question", None, "js_readline_question", &[NA_STR, NA_PTR], NR_VOID),
        row("readline", true, "on", None, "js_readline_on", &[NA_STR, NA_PTR], NR_VOID),
        row("readline", true, "close", None, "js_readline_close", &[], NR_VOID),
        row("worker_threads", false, "getWorkerData", None, "js_worker_threads_get_worker_data", &[], NR_F64),
        row("worker_threads", false, "workerData", None, "js_worker_threads_get_worker_data", &[], NR_F64),
        row("worker_threads", false, "parentPort", None, "js_worker_threads_parent_port", &[], NR_F64),
        row("worker_threads", true, "postMessage", None, "js_worker_threads_post_message", &[NA_F64], NR_F64),
        row("ethers", false, "getAddress", None, "js_ethers_get_address", &[NA_STR], NR_STR),
        row("ethers", false, "formatEther", None, "js_ethers_format_ether", &[NA_PTR], NR_STR),
        row("ethers", false, "formatUnits", None, "js_ethers_format_units", &[NA_PTR, NA_F64], NR_STR),
    ]
}

fn build_rows_12() -> (v: Vec<NativeModSig>)
    ensures
        v@ == rows_12(),
{
    vec![
        sig("perry/tui", false, "useEffect", None, "js_perry_tui_use_effect", &[NA_PTR, NA_PTR], NR_VOID),
        sig("perry/tui", false, "useMemo", None, "js_perry_tui_use_memo", &[NA_PTR, NA_PTR], NR_F64),
        sig("perry/tui", false, "useRef", None, "js_perry_tui_use_ref", &[NA_F64], NR_PTR),
        sig("perry/tui", true, "get", Some("RefBox"), "js_perry_tui_ref_get", &[], NR_F64),
        sig("perry/tui", true, "set", Some("RefBox"), "js_perry_tui_ref_set", &[NA_F64], NR_VOID),
        sig("perry/tui", false, "useApp", None, "js_perry_tui_use_app", &[], NR_PTR),
        sig("perry/tui", true, "exit", Some("TuiApp"), "js_perry_tui_app_exit", &[], NR_VOID),
        sig("perry/tui", true, "waitUntilExit", Some("TuiApp"), "js_perry_tui_app_wait_until_exit", &[], NR_VOID),
        sig("perry/tui", false, "useStdout", None, "js_perry_tui_use_stdout", &[], NR_PTR),
        sig("perry/tui", true, "write", Some("TuiStdout"), "js_perry_tui_stdout_write", &[NA_STR], NR_VOID),
        sig("perry/tui", true, "columns", Some("TuiStdout"), "js_perry_tui_stdout_columns", &[], NR_F64),
        sig("perry/tui", true, "rows", Some("TuiStdout"), "js_perry_tui_stdout_rows", &[], NR_F64),
        sig("perry/tui", false, "waitUntilExit", None, "js_perry_tui_wait_until_exit", &[], NR_VOID),
        sig("perry/tui", false, "useFocus", None, "js_perry_tui_use_focus", &[NA_F64, NA_F64], NR_F64),
        sig("perry/tui", false, "focusNext", None, "js_perry_tui_focus_next", &[], NR_VOID),
        sig("perry/tui", false, "focusPrevious", None, "js_perry_tui_focus_previous", &[], NR_VOID),
        sig("perry/tui", false, "focus", None, "js_perry_tui_focus", &[NA_F64], NR_VOID),
        sig("perry/tui", false, "useFocusManager", None, "js_perry_tui_use_focus_manager", &[], NR_PTR),
        sig("perry/tui", true, "focusNext", Some("FocusManager"), "js_perry_tui_focus_manager_focus_next", &[], NR_VOID),
        sig("perry/tui", true, "focusPrevious", Some("FocusManager"), "js_perry_tui_focus_manager_focus_previous", &[], NR_VOID),
        sig("perry/tui", true, "focus", Some("FocusManager"), "js_perry_tui_focus_manager_focus", &[NA_F64], NR_VOID),
        sig("readline", false, "createInterface", None, "js_readline_create_interface", &[NA_F64], NR_PTR),
        sig("readline", true, "question", None, "js_readline_question", &[NA_STR, NA_PTR], NR_VOID),
        sig("readline", true, "on", None, "js_readline_on", &[NA_STR, NA_PTR], NR_VOID),
        sig("readline", true, "close", None, "js_readline_close", &[], NR_VOID),
        sig("worker_threads", false, "getWorkerData", None, "js_worker_threads_get_worker_data", &[], NR_F64),
        sig("worker_threads", false, "workerData", None, "js_worker_threads_get_worker_data", &[], NR_F64),
        sig("worker_threads", false, "parentPort", None, "js_worker_threads_parent_port", &[], NR_F64),
        sig("worker_threads", true, "postMessage", None, "js_worker_threads_post_message", &[NA_F64], NR_F64),
        sig("ethers", false, "getAddress", None, "js_ethers_get_address", &[NA_STR], NR_STR),
        sig("ethers", false, "formatEther", None, "js_ethers_format_ether", &[NA_PTR], NR_STR),
        sig("ethers", false, "formatUnits", None, "js_ethers_format_units", &[NA_PTR, NA_F64], NR_STR),
    ]
}

/// Block 13 of the table's rows, in declaration order.
pub open spec fn rows_13() -> Seq<NativeModSig> {
    seq![
        row("ethers", false, "parseEther", None, "js_ethers_parse_ether", &[NA_STR], NR_BIGINT),
        row("ethers", false, "parseUnits", None, "js_ethers_parse_units", &[NA_STR, NA_F64], NR_BIGINT),
        row("ethers", false, "createRandom", Some("Wallet"), "js_ethers_wallet_create_random", &[], NR_PTR),
        row("http", false, "request", None, "js_http_request", &[NA_F64, NA_PTR], NR_PTR),
        row("http", false, "get", None, "js_http_get", &[NA_F64, NA_PTR], NR_PTR),
        row("https", false, "request", None, "js_https_request", &[NA_F64, NA_PTR], NR_PTR),
        row("https", false, "get", None, "js_https_get", &[NA_F64, NA_PTR], NR_PTR),
        row("http", true, "on", Some("ClientRequest"), "js_http_on", &[NA_STR, NA_PTR], NR_PTR),
        row("http", true, "end", Some("ClientRequest"), "js_http_client_request_end", &[NA_F64], NR_PTR),
        row("http", true, "write", Some("ClientRequest"), "js_http_client_request_write", &[NA_F64], NR_PTR),
        row("http", true, "setHeader", Some("ClientRequest"), "js_http_set_header", &[NA_STR, NA_STR], NR_PTR),
        row("http", true, "setTimeout", Some("ClientRequest"), "js_http_set_timeout", &[NA_F64], NR_PTR),
        row("http", false, "createServer", None, "js_node_http_create_server", &[NA_PTR], NR_PTR),
        row("http", true, "listen", Some("HttpServer"), "js_node_http_server_listen", &[NA_F64, NA_PTR], NR_VOID),
        row("http", true, "close", Some("HttpServer"), "js_node_http_server_close", &[NA_PTR], NR_VOID),
        row("http", true, "closeAllConnections", Some("HttpServer"), "js_node_http_server_close_all_connections", &[], NR_VOID),
        row("http", true, "closeIdleConnections", Some("HttpServer"), "js_node_http_server_close_idle_connections", &[], NR_VOID),
        row("http", true, "on", Some("HttpServer"), "js_node_http_server_on", &[NA_STR, NA_PTR], NR_F64),
        row("http", true, "addListener", Some("HttpServer"), "js_node_http_server_on", &[NA_STR, NA_PTR], NR_F64),
        row("http", true, "on", Some("IncomingMessage"), "js_node_http_im_on", &[NA_STR, NA_PTR], NR_F64),
        row("http", true, "addListener", Some("IncomingMessage"), "js_node_http_im_on", &[NA_STR, NA_PTR], NR_F64),
        row("http", true, "pause", Some("IncomingMessage"), "js_node_http_im_pause", &[], NR_VOID),
        row("http", true, "resume", Some("IncomingMessage"), "js_node_http_im_resume", &[], NR_VOID),
        row("http", true, "destroy", Some("IncomingMessage"), "js_node_http_im_destroy", &[], NR_VOID),
        row("http", true, "read", Some("IncomingMessage"), "js_node_http_im_read", &[], NR_F64),
        row("http", true, "setHeader", Some("ServerResponse"), "js_node_http_res_set_header", &[NA_STR, NA_STR], NR_VOID),
        row("http", true, "getHeader", Some("ServerResponse"), "js_node_http_res_get_header", &[NA_STR], NR_F64),
        row("http", true, "removeHeader", Some("ServerResponse"), "js_node_http_res_remove_header", &[NA_STR], NR_VOID),
        row("http", true, "hasHeader", Some("ServerResponse"), "js_node_http_res_has_header", &[NA_STR], NR_I32),
        row("http", true, "writeHead", Some("ServerResponse"), "js_node_http_res_write_head", &[NA_F64, NA_STR, NA_STR], NR_VOID),
        row("http", true, "write", Some("ServerResponse"), "js_node_http_res_write", &[NA_F64], NR_I32),
        row("http", true, "end", Some("ServerResponse"), "js_node_http_res_end", &[NA_F64], NR_VOID),
    ]
}

fn build_rows_13() -> (v: Vec<NativeModSig>)
    ensures
        v@ == rows_13(),
{
    vec![
        sig("ethers", false, "parseEther", None, "js_ethers_parse_ether", &[NA_STR], NR_BIGINT),
        sig("ethers", false, "parseUnits", None, "js_ethers_parse_units", &[NA_STR, NA_F64], NR_BIGINT),
        sig("ethers", false, "createRandom", Some("Wallet"), "js_ethers_wallet_create_random", &[], NR_PTR),
        sig("http", false, "request", None, "js_http_request", &[NA_F64, NA_PTR], NR_PTR),
        sig("http", false, "get", None, "js_http_get", &[NA_F64, NA_PTR], NR_PTR),
        sig("https", false, "request", None, "js_https_request", &[NA_F64, NA_PTR], NR_PTR),
        sig("https", false, "get", None, "js_https_get", &[NA_F64, NA_PTR], NR_PTR),
        sig("http", true, "on", Some("ClientRequest"), "js_http_on", &[NA_STR, NA_PTR], NR_PTR),
        sig("http", true, "end", Some("ClientRequest"), "js_http_client_request_end", &[NA_F64], NR_PTR),
        sig("http", true, "write", Some("ClientRequest"), "js_http_client_request_write", &[NA_F64], NR_PTR),
        sig("http", true, "setHeader", Some("ClientRequest"), "js_http_set_header", &[NA_STR, NA_STR], NR_PTR),
        sig("http", true, "setTimeout", Some("ClientRequest"), "js_http_set_timeout", &[NA_F64], NR_PTR),
        sig("http", false, "createServer", None, "js_node_http_create_server", &[NA_PTR], NR_PTR),
        sig("http", true, "listen", Some("HttpServer"), "js_node_http_server_listen", &[NA_F64, NA_PTR], NR_VOID),
        sig("http", true, "close", Some("HttpServer"), "js_node_http_server_close", &[NA_PTR], NR_VOID),
        sig("http", true, "closeAllConnections", Some("HttpServer"), "js_node_http_server_close_all_connections", &[], NR_VOID),
        sig("http", true, "closeIdleConnections", Some("HttpServer"), "js_node_http_server_close_idle_connections", &[], NR_VOID),
        sig("http", true, "on", Some("HttpServer"), "js_node_http_server_on", &[NA_STR, NA_PTR], NR_F64),
        sig("http", true, "addListener", Some("HttpServer"), "js_node_http_server_on", &[NA_STR, NA_PTR], NR_F64),
        sig("http", true, "on", Some("IncomingMessage"), "js_node_http_im_on", &[NA_STR, NA_PTR], NR_F64),
        sig("http", true, "addListener", Some("IncomingMessage"), "js_node_http_im_on", &[NA_STR, NA_PTR], NR_F64),
        sig("http", true, "pause", Some("IncomingMessage"), "js_node_http_im_pause", &[], NR_VOID),
        sig("http", true, "resume", Some("IncomingMessage"), "js_node_http_im_resume", &[], NR_VOID),
        sig("http", true, "destroy", Some("IncomingMessage"), "js_node_http_im_destroy", &[], NR_VOID),
        sig("http", true, "read", Some("IncomingMessage"), "js_node_http_im_read", &[], NR_F64),
        sig("http", true, "setHeader", Some("ServerResponse"), "js_node_http_res_set_header", &[NA_STR, NA_STR], NR_VOID),
        sig("http", true, "getHeader", Some("ServerResponse"), "js_node_http_res_get_header", &[NA_STR], NR_F64),
        sig("http", true, "removeHeader", Some("ServerResponse"), "js_node_http_res_remove_header", &[NA_STR], NR_VOID),
        sig("http", true, "hasHeader", Some("ServerResponse"), "js_node_http_res_has_header", &[NA_STR], NR_I32),
        sig("http", true, "writeHead", Some("ServerResponse"), "js_node_http_res_write_head", &[NA_F64, NA_STR, NA_STR], NR_VOID),
        sig("http", true, "write", Some("ServerResponse"), "js_node_http_res_write", &[NA_F64], NR_I32),
        sig("http", true, "end", Some("ServerResponse"), "js_node_http_res_end", &[NA_F64], NR_VOID),
    ]
}

/// Block 14 of the table's rows, in declaration order.
pub open spec fn rows_14() -> Seq<NativeModSig> {
    seq![
        row("http", true, "flushHeaders", Some("ServerResponse"), "js_node_http_res_flush_headers", &[], NR_VOID),
        row("http", true, "writeContinue", Some("ServerResponse"), "js_node_http_res_write_continue", &[], NR_VOID),
        row("http", true, "writeProcessing", Some("ServerResponse"), "js_node_http_res_write_processing", &[], NR_VOID),
        row("http", true, "on", Some("ServerResponse"), "js_node_http_res_on", &[NA_STR, NA_PTR], NR_F64),
        row("http", true, "addListener", Some("ServerResponse"), "js_node_http_res_on", &[NA_STR, NA_PTR], NR_F64),
        row("http", true, "method", Some("IncomingMessage"), "js_node_http_im_method", &[], NR_STR),
        row("http", true, "url", Some("IncomingMessage"), "js_node_http_im_url", &[], NR_STR),
        row("http", true, "httpVersion", Some("IncomingMessage"), "js_node_http_im_http_version", &[], NR_STR),
        row("http", true, "setStatus", Some("ServerResponse"), "js_node_http_res_set_status", &[NA_F64], NR_VOID),
        row("http", true, "getStatus", Some("ServerResponse"), "js_node_http_res_get_status", &[], NR_F64),
        row("http", true, "__get_method", Some("IncomingMessage"), "js_node_http_im_method", &[], NR_STR),
        row("http", true, "__get_url", Some("IncomingMessage"), "js_node_http_im_url", &[], NR_STR),
        row("http", true, "__get_httpVersion", Some("IncomingMessage"), "js_node_http_im_http_version", &[], NR_STR),
        row("http", true, "__get_complete", Some("IncomingMessage"), "js_node_http_im_complete", &[], NR_I32),
        row("http", true, "__get_aborted", Some("IncomingMessage"), "js_node_http_im_aborted", &[], NR_I32),
        row("http", true, "__get_destroyed", Some("IncomingMessage"), "js_node_http_im_destroyed", &[], NR_I32),
        row("http", true, "__get_statusCode", Some("ServerResponse"), "js_node_http_res_get_status", &[], NR_F64),
        row("http", true, "__set_statusCode", Some("ServerResponse"), "js_node_http_res_set_status", &[NA_F64], NR_VOID),
        row("http", true, "__set_statusMessage", Some("ServerResponse"), "js_node_http_res_set_status_message", &[NA_STR], NR_VOID),
        row("http", true, "__get_headersSent", Some("ServerResponse"), "js_node_http_res_headers_sent", &[], NR_I32),
        row("http", true, "__get_writableEnded", Some("ServerResponse"), "js_node_http_res_writable_ended", &[], NR_I32),
        row("http", true, "__get_writableFinished", Some("ServerResponse"), "js_node_http_res_writable_finished", &[], NR_I32),
        row("https", false, "createServer", None, "js_node_https_create_server", &[NA_F64, NA_PTR], NR_PTR),
        row("https", true, "listen", Some("HttpsServer"), "js_node_https_server_listen", &[NA_F64, NA_PTR], NR_VOID),
        row("https", true, "close", Some("HttpsServer"), "js_node_https_server_close", &[NA_PTR], NR_VOID),
        row("https", true, "on", Some("HttpsServer"), "js_node_https_server_on", &[NA_STR, NA_PTR], NR_F64),
        row("http2", false, "createSecureServer", None, "js_node_http2_create_secure_server", &[NA_F64, NA_PTR], NR_PTR),
        row("http2", true, "listen", Some("Http2SecureServer"), "js_node_http2_server_listen", &[NA_F64, NA_PTR], NR_VOID),
        row("http2", true, "close", Some("Http2SecureServer"), "js_node_http2_server_close", &[NA_PTR], NR_VOID),
        row("http2", true, "on", Some("Http2SecureServer"), "js_node_http2_server_on", &[NA_STR, NA_PTR], NR_F64),
    ]
}

fn build_rows_14() -> (v: Vec<NativeModSig>)
    ensures
        v@ == rows_14(),
{
    vec![
        sig("http", true, "flushHeaders", Some("ServerResponse"), "js_node_http_res_flush_headers", &[], NR_VOID),
        sig("http", true, "writeContinue", Some("ServerResponse"), "js_node_http_res_write_continue", &[], NR_VOID),
        sig("http", true, "writeProcessing", Some("ServerResponse"), "js_node_http_res_write_processing", &[], NR_VOID),
        sig("http", true, "on", Some("ServerResponse"), "js_node_http_res_on", &[NA_STR, NA_PTR], NR_F64),
        sig("http", true, "addListener", Some("ServerResponse"), "js_node_http_res_on", &[NA_STR, NA_PTR], NR_F64),
        sig("http", true, "method", Some("IncomingMessage"), "js_node_http_im_method", &[], NR_STR),
        sig("http", true, "url", Some("IncomingMessage"), "js_node_http_im_url", &[], NR_STR),
        sig("http", true, "httpVersion", Some("IncomingMessage"), "js_node_http_im_http_version", &[], NR_STR),
        sig("http", true, "setStatus", Some("ServerResponse"), "js_node_http_res_set_status", &[NA_F64], NR_VOID),
        sig("http", true, "getStatus", Some("ServerResponse"), "js_node_http_res_get_status", &[], NR_F64),
        sig("http", true, "__get_method", Some("IncomingMessage"), "js_node_http_im_method", &[], NR_STR),
        sig("http", true, "__get_url", Some("IncomingMessage"), "js_node_http_im_url", &[], NR_STR),
        sig("http", true, "__get_httpVersion", Some("IncomingMessage"), "js_node_http_im_http_version", &[], NR_STR),
        sig("http", true, "__get_complete", Some("IncomingMessage"), "js_node_http_im_complete", &[], NR_I32),
        sig("http", true, "__get_aborted", Some("IncomingMessage"), "js_node_http_im_aborted", &[], NR_I32),
        sig("http", true, "__get_destroyed", Some("IncomingMessage"), "js_node_http_im_destroyed", &[], NR_I32),
        sig("http", true, "__get_statusCode", Some("ServerResponse"), "js_node_http_res_get_status", &[], NR_F64),
        sig("http", true, "__set_statusCode", Some("ServerResponse"), "js_node_http_res_set_status", &[NA_F64], NR_VOID),
        sig("http", true, "__set_statusMessage", Some("ServerResponse"), "js_node_http_res_set_status_message", &[NA_STR], NR_VOID),
        sig("http", true, "__get_headersSent", Some("ServerResponse"), "js_node_http_res_headers_sent", &[], NR_I32),
        sig("http", true, "__get_writableEnded", Some("ServerResponse"), "js_node_http_res_writable_ended", &[], NR_I32),
        sig("http", true, "__get_writableFinished", Some("ServerResponse"), "js_node_http_res_writable_finished", &[], NR_I32),
        sig("https", false, "createServer", None, "js_node_https_create_server", &[NA_F64, NA_PTR], NR_PTR),
        sig("https", true, "listen", Some("HttpsServer"), "js_node_https_server_listen", &[NA_F64, NA_PTR], NR_VOID),
        sig("https", true, "close", Some("HttpsServer"), "js_node_https_server_close", &[NA_PTR], NR_VOID),
        sig("https", true, "on", Some("HttpsServer"), "js_node_https_server_on", &[NA_STR, NA_PTR], NR_F64),
        sig("http2", false, "createSecureServer", None, "js_node_http2_create_secure_server", &[NA_F64, NA_PTR], NR_PTR),
        sig("http2", true, "listen", Some("Http2SecureServer"), "js_node_http2_server_listen", &[NA_F64, NA_PTR], NR_VOID),
        sig("http2", true, "close", Some("Http2SecureServer"), "js_node_http2_server_close", &[NA_PTR], NR_VOID),
        sig("http2", true, "on", Some("Http2SecureServer"), "js_node_http2_server_on", &[NA_STR, NA_PTR], NR_F64),
    ]
}

/// The whole table, in declaration order.
pub open spec fn native_module_table_spec() -> Seq<NativeModSig> {
    rows_0()
        + rows_1()
        + rows_2()
        + rows_3()
        + rows_4()
        + rows_5()
        + rows_6()
        + rows_7()
        + rows_8()
        + rows_9()
        + rows_10()
        + rows_11()
        + rows_12()
        + rows_13()
        + rows_14()
}

/// Builds the dispatch table, in declaration order.
pub fn native_module_table() -> (t: Vec<NativeModSig>)
    ensures
        t@ == native_module_table_spec(),
{
    let mut t = build_rows_0();
    let mut c = build_rows_1();
    t.append(&mut c);
    let mut c = build_rows_2();
    t.append(&mut c);
    let mut c = build_rows_3();
    t.append(&mut c);
    let mut c = build_rows_4();
    t.append(&mut c);
    let mut c = build_rows_5();
    t.append(&mut c);
    let mut c = build_rows_6();
    t.append(&mut c);
    let mut c = build_rows_7();
    t.append(&mut c);
    let mut c = build_rows_8();
    t.append(&mut c);
    let mut c = build_rows_9();
    t.append(&mut c);
    let mut c = build_rows_10();
    t.append(&mut c);
    let mut c = build_rows_11();
    t.append(&mut c);
    let mut c = build_rows_12();
    t.append(&mut c);
    let mut c = build_rows_13();
    t.append(&mut c);
    let mut c = build_rows_14();
    t.append(&mut c);
    t
}

} // verus!
