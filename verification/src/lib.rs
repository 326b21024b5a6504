pub mod text;
pub mod native_table;
pub mod native_module;
pub mod ir;
pub mod override_check;
pub mod buffer_read;
pub mod util_types;
pub mod console;
pub mod ffi;
pub mod call_args;
pub mod marshal;
pub mod func_ref;
pub mod native_dispatch;
pub mod hir;
pub mod closure_scope;
pub mod atomics;
pub mod web_events;
pub mod closure_call;
pub mod index_call;
pub mod method_dispatch;
pub mod promise;
pub mod extern_call;
pub mod collections;
pub mod fetch;
pub mod class_layout;
pub mod builtin_new;
pub mod receiver_methods;
pub mod namespace_call;
pub mod call_route;
pub mod new_object;
pub mod field_init;
pub mod notification;
pub mod new_init;
pub mod ui_table;
pub mod object_alloc;
pub mod web_ctor;
pub mod method_resolution;
pub mod class_method;
pub mod fetch_ctor;
pub mod static_dispatch;
pub mod new_ctor;
pub mod options_literal;
pub mod field_emit;
pub mod new_scope;
pub mod new_sequence;
