//! `util.types.isPromise(x)` and friends: after HIR normalization these are
//! `NativeMethodCall`s on the `util/types` module, lowered straight to their
//! runtime predicates (or folded to a constant when the answer is known
//! statically).

use vstd::prelude::*;

use crate::ir::{args_view, FnBuilder, FnBuilderV, InstV, JsTag, Operand, OperandV, Ty};
use crate::text::str_eq;

verus! {

/// The NaN-boxed `true` or `false` literal.
pub fn nanbox_bool_literal(value: bool) -> (res: Operand)
    ensures
        res@ == OperandV::Tag(if value { JsTag::True } else { JsTag::False }),
{
    Operand::Tag(if value { JsTag::True } else { JsTag::False })
}

/// What the compiler knows statically about the argument of
/// `util.types.isAsyncFunction(arg)`.
#[derive(Copy, Clone, Debug, PartialEq, Eq, Structural)]
pub enum AsyncEvidence {
    /// A reference to a function of this module; whether it is `async`.
    FuncRef { is_async: bool },
    /// A closure literal; whether it is `async`.
    Closure { is_async: bool },
    /// A local whose static type is a function type; whether it is `async`.
    FunctionTypedLocal { is_async: bool },
    /// Anything else.
    Unknown,
}

/// Whether the argument is statically known to be an async function, when
/// that is known.
pub fn util_types_arg_is_async_function_static(e: &AsyncEvidence) -> (res: Option<bool>)
    ensures
        res == match *e {
            AsyncEvidence::FuncRef { is_async } => Some(is_async),
            AsyncEvidence::Closure { is_async } => Some(is_async),
            AsyncEvidence::FunctionTypedLocal { is_async } => Some(is_async),
            AsyncEvidence::Unknown => None::<bool>,
        },
{
    match e {
        AsyncEvidence::FuncRef { is_async } => Some(*is_async),
        AsyncEvidence::Closure { is_async } => Some(*is_async),
        AsyncEvidence::FunctionTypedLocal { is_async } => Some(*is_async),
        AsyncEvidence::Unknown => None,
    }
}

/// The runtime predicate of each `util/types` method.
pub open spec fn util_types_runtime_spec(m: Seq<char>) -> Option<Seq<char>> {
    if m == "isPromise"@ { Some("js_util_types_is_promise"@) }
    else if m == "isArrayBuffer"@ { Some("js_util_types_is_array_buffer"@) }
    else if m == "isSharedArrayBuffer"@ { Some("js_util_types_is_shared_array_buffer"@) }
    else if m == "isAnyArrayBuffer"@ { Some("js_util_types_is_any_array_buffer"@) }
    else if m == "isArrayBufferView"@ { Some("js_util_types_is_array_buffer_view"@) }
    else if m == "isTypedArray"@ { Some("js_util_types_is_typed_array"@) }
    else if m == "isUint8Array"@ { Some("js_util_types_is_uint8_array"@) }
    else if m == "isInt8Array"@ { Some("js_util_types_is_int8_array"@) }
    else if m == "isInt16Array"@ { Some("js_util_types_is_int16_array"@) }
    else if m == "isUint16Array"@ { Some("js_util_types_is_uint16_array"@) }
    else if m == "isInt32Array"@ { Some("js_util_types_is_int32_array"@) }
    else if m == "isUint32Array"@ { Some("js_util_types_is_uint32_array"@) }
    else if m == "isFloat32Array"@ { Some("js_util_types_is_float32_array"@) }
    else if m == "isFloat64Array"@ { Some("js_util_types_is_float64_array"@) }
    else if m == "isUint8ClampedArray"@ { Some("js_util_types_is_uint8_clamped_array"@) }
    else if m == "isBigInt64Array"@ { Some("js_util_types_is_big_int64_array"@) }
    else if m == "isBigUint64Array"@ { Some("js_util_types_is_big_uint64_array"@) }
    else if m == "isMap"@ { Some("js_util_types_is_map"@) }
    else if m == "isMapIterator"@ { Some("js_util_types_is_map_iterator"@) }
    else if m == "isProxy"@ { Some("js_util_types_is_proxy"@) }
    else if m == "isSet"@ { Some("js_util_types_is_set"@) }
    else if m == "isSetIterator"@ { Some("js_util_types_is_set_iterator"@) }
    else if m == "isDate"@ { Some("js_util_types_is_date"@) }
    else if m == "isRegExp"@ { Some("js_util_types_is_reg_exp"@) }
    else if m == "isAsyncFunction"@ { Some("js_util_types_is_async_function"@) }
    else if m == "isGeneratorFunction"@ { Some("js_util_types_is_generator_function"@) }
    else if m == "isGeneratorObject"@ { Some("js_util_types_is_generator_object"@) }
    else if m == "isNativeError"@ { Some("js_util_types_is_native_error"@) }
    else if m == "isDataView"@ { Some("js_util_types_is_data_view"@) }
    else if m == "isFloat16Array"@ { Some("js_util_types_is_float16_array"@) }
    else if m == "isWeakMap"@ { Some("js_util_types_is_weak_map"@) }
    else if m == "isWeakSet"@ { Some("js_util_types_is_weak_set"@) }
    else if m == "isExternal"@ { Some("js_util_types_is_external"@) }
    else { None }
}

/// The runtime predicate of a `util/types` method.
pub fn util_types_runtime(method: &str) -> (res: Option<&'static str>)
    ensures
        match (res, util_types_runtime_spec(method@)) {
            (Some(r), Some(s)) => r@ == s,
            (None, None) => true,
            _ => false,
        },
{
    if str_eq(method, "isPromise") { Some("js_util_types_is_promise") }
    else if str_eq(method, "isArrayBuffer") { Some("js_util_types_is_array_buffer") }
    else if str_eq(method, "isSharedArrayBuffer") { Some("js_util_types_is_shared_array_buffer") }
    else if str_eq(method, "isAnyArrayBuffer") { Some("js_util_types_is_any_array_buffer") }
    else if str_eq(method, "isArrayBufferView") { Some("js_util_types_is_array_buffer_view") }
    else if str_eq(method, "isTypedArray") { Some("js_util_types_is_typed_array") }
    else if str_eq(method, "isUint8Array") { Some("js_util_types_is_uint8_array") }
    else if str_eq(method, "isInt8Array") { Some("js_util_types_is_int8_array") }
    else if str_eq(method, "isInt16Array") { Some("js_util_types_is_int16_array") }
    else if str_eq(method, "isUint16Array") { Some("js_util_types_is_uint16_array") }
    else if str_eq(method, "isInt32Array") { Some("js_util_types_is_int32_array") }
    else if str_eq(method, "isUint32Array") { Some("js_util_types_is_uint32_array") }
    else if str_eq(method, "isFloat32Array") { Some("js_util_types_is_float32_array") }
    else if str_eq(method, "isFloat64Array") { Some("js_util_types_is_float64_array") }
    else if str_eq(method, "isUint8ClampedArray") { Some("js_util_types_is_uint8_clamped_array") }
    else if str_eq(method, "isBigInt64Array") { Some("js_util_types_is_big_int64_array") }
    else if str_eq(method, "isBigUint64Array") { Some("js_util_types_is_big_uint64_array") }
    else if str_eq(method, "isMap") { Some("js_util_types_is_map") }
    else if str_eq(method, "isMapIterator") { Some("js_util_types_is_map_iterator") }
    else if str_eq(method, "isProxy") { Some("js_util_types_is_proxy") }
    else if str_eq(method, "isSet") { Some("js_util_types_is_set") }
    else if str_eq(method, "isSetIterator") { Some("js_util_types_is_set_iterator") }
    else if str_eq(method, "isDate") { Some("js_util_types_is_date") }
    else if str_eq(method, "isRegExp") { Some("js_util_types_is_reg_exp") }
    else if str_eq(method, "isAsyncFunction") { Some("js_util_types_is_async_function") }
    else if str_eq(method, "isGeneratorFunction") { Some("js_util_types_is_generator_function") }
    else if str_eq(method, "isGeneratorObject") { Some("js_util_types_is_generator_object") }
    else if str_eq(method, "isNativeError") { Some("js_util_types_is_native_error") }
    else if str_eq(method, "isDataView") { Some("js_util_types_is_data_view") }
    else if str_eq(method, "isFloat16Array") { Some("js_util_types_is_float16_array") }
    else if str_eq(method, "isWeakMap") { Some("js_util_types_is_weak_map") }
    else if str_eq(method, "isWeakSet") { Some("js_util_types_is_weak_set") }
    else if str_eq(method, "isExternal") { Some("js_util_types_is_external") }
    else { None }
}

/// What a `util/types` predicate call lowers to.
#[derive(Copy, Clone, Debug)]
pub enum UtilTypesPlan {
    /// The answer is known statically: a boolean literal.
    Constant(bool),
    /// A call of the runtime predicate on the first argument (or `0.0` when
    /// there is none).
    Runtime(&'static str),
}

/// Whether a native method call is a direct `util/types` predicate: module
/// `util/types`, no class name, no receiver object.
pub open spec fn is_direct_util_types(module: Seq<char>, has_class_name: bool, has_object: bool) -> bool {
    module == "util/types"@ && !has_class_name && !has_object
}

/// Decides how a native method call on `util/types` is lowered. `None` when
/// the call is not a direct `util/types` predicate this lowering knows.
/// `first_arg_async` is what is statically known of the first argument being
/// an async function (`None` when there is no first argument or nothing is
/// known).
pub fn util_types_predicate_plan(
    module: &str,
    has_class_name: bool,
    has_object: bool,
    method: &str,
    first_arg_async: Option<bool>,
) -> (res: Option<UtilTypesPlan>)
    ensures
        !is_direct_util_types(module@, has_class_name, has_object) ==> res is None,
        is_direct_util_types(module@, has_class_name, has_object) && method@ == "isAsyncFunction"@ ==> match
            first_arg_async {
            Some(a) => res matches Some(UtilTypesPlan::Constant(c)) && c == a,
            None => res matches Some(UtilTypesPlan::Runtime(r)) && r@ == "js_util_types_is_async_function"@,
        },
        is_direct_util_types(module@, has_class_name, has_object) && method@ != "isAsyncFunction"@ ==> match
            util_types_runtime_spec(method@) {
            Some(s) => res matches Some(UtilTypesPlan::Runtime(r)) && r@ == s,
            None => res is None,
        },
{
    if !(str_eq(module, "util/types") && !has_class_name && !has_object) {
        return None;
    }
    if str_eq(method, "isAsyncFunction") {
        return match first_arg_async {
            Some(a) => Some(UtilTypesPlan::Constant(a)),
            None => Some(UtilTypesPlan::Runtime("js_util_types_is_async_function")),
        };
    }
    match util_types_runtime(method) {
        Some(r) => Some(UtilTypesPlan::Runtime(r)),
        None => None,
    }
}

/// Emits a `util/types` predicate per its plan: the boolean literal, or a
/// call of the runtime predicate on `first_arg` (`0.0` when absent).
pub fn lower_util_types_predicate_arg(b: &mut FnBuilder, plan: UtilTypesPlan, first_arg: Option<Operand>) -> (res:
    Operand)
    requires
        old(b)@.wf(),
        old(b)@.next_reg < u64::MAX,
    ensures
        match plan {
            UtilTypesPlan::Constant(c) => final(b)@ == old(b)@ && res@ == OperandV::Tag(
                if c { JsTag::True } else { JsTag::False },
            ),
            UtilTypesPlan::Runtime(rt) => {
                let v = match first_arg {
                    Some(a) => a@,
                    None => OperandV::Zero,
                };
                &&& res@ == OperandV::Reg(old(b)@.next_reg as u64)
                &&& final(b)@ == (FnBuilderV { next_reg: old(b)@.next_reg + 1, ..old(b)@ }).append_cur(
                    seq![
                        InstV::Call {
                            dest: Some(old(b)@.next_reg as u64),
                            ret: Ty::Double,
                            callee: rt@,
                            args: seq![(Ty::Double, v)],
                        },
                    ],
                )
            },
        },
        final(b)@.wf(),
{
    match plan {
        UtilTypesPlan::Constant(c) => nanbox_bool_literal(c),
        UtilTypesPlan::Runtime(rt) => {
            let value = match first_arg {
                Some(a) => a,
                None => Operand::Zero,
            };
            let ghost vv = value@;
            let args = vec![(Ty::Double, value)];
            assert(args_view(args@) =~= seq![(Ty::Double, vv)]);
            let r = b.call(Ty::Double, rt, args);
            Operand::Reg(r)
        },
    }
}

} // verus!
