//! The order in which a call `callee(args)` tries its lowerings: the
//! shape of the callee picks the first that applies, from the computed-key
//! method call down to calling the callee's value as a closure.

use vstd::prelude::*;

use crate::console::console_call_target;
use crate::hir::Expr;
use crate::ir::{FnBuilderV, OperandV};
use crate::method_dispatch::{native_str_dispatch_target, uses_native_dispatch, ReceiverFacts};
use crate::namespace_call::{namespace_member, namespace_path, namespace_path_spec, ImportTables, NamespacePath};
use crate::promise::{promise_static_result, promise_static_spec};
use crate::text::str_eq;

verus! {

/// Where a call is lowered.
#[derive(Copy, Clone, Debug, PartialEq, Eq, Structural)]
pub enum CallRoute {
    /// `obj[key](args)` with a string key: the runtime's method call by
    /// name (`try_lower_index_get_call`).
    StrKeyMethod,
    /// The current async step closure (`try_lower_current_step_closure_call`).
    CurrentStepClosure,
    /// A local of function type (`try_lower_closure_typed_local_call`).
    ClosureTypedLocal,
    /// A member of a wildcard namespace import whose source is known
    /// (`try_lower_namespace_member_call`).
    NamespaceMember,
    /// A function of this module (`try_lower_func_ref_call`).
    FuncRef,
    /// An imported name (`try_lower_extern_func_call`).
    ExternFunc,
    /// A method the receiver's static type dispatches (number formatting,
    /// `toString`, string, array, promise, map and set methods, static
    /// methods of a class-valued receiver), or a user-class instance method
    /// (the direct call, the override probe and the class-id towers of
    /// `lower_class_method_call`).
    ReceiverMethod,
    /// `console.<method>`, by the general call's own console arm
    /// (`lower_call_console`).
    Console,
    /// A static method of the global `Promise` (or `Array.fromAsync`)
    /// (`try_lower_promise_static_call`).
    PromiseStatic,
    /// The runtime's universal method dispatcher
    /// (`try_lower_native_method_str_dispatch`).
    NativeMethod,
    /// The callee's value called as a closure, refused beyond sixteen
    /// arguments (`lower_call_fallthrough`).
    ClosureFallthrough,
}

/// What the type analysis knows of a call beyond the callee's shape.
#[derive(Clone, Debug)]
pub struct CallFacts {
    /// The key of an `obj[key]` callee is a string.
    pub index_is_string: bool,
    /// The local of a `local` callee has a function type.
    pub local_is_function: bool,
    /// The receiver's static type dispatches the method itself.
    pub receiver_dispatched: bool,
    /// The receiver's class.
    pub receiver: ReceiverFacts,
    /// The global constructor a `Global.method` callee reads, if known.
    pub global_ctor: Option<String>,
}

/// Whether `callee` reads a static method handled as a `Promise` (or
/// `Array.fromAsync`) call off the global constructor `global_ctor`.
pub open spec fn promise_static_target(callee: Expr, global_ctor: Option<Seq<char>>) -> bool {
    match callee {
        Expr::PropertyGet { property, .. } => (global_ctor == Some("Promise"@) && promise_static_spec(property@)
            is Some) || (global_ctor == Some("Array"@) && property@ == "fromAsync"@),
        _ => false,
    }
}

/// The receiver class of the facts, as a view.
pub open spec fn receiver_class(f: ReceiverFacts) -> Option<Seq<char>> {
    match f.class_name {
        Some(c) => Some(c@),
        None => None,
    }
}

/// The lowering of `callee(args)` with `n` arguments: the first of these
/// that applies, in this order.
pub open spec fn call_route_spec(callee: Expr, n: nat, t: ImportTables, f: CallFacts) -> CallRoute {
    if callee is IndexGet && f.index_is_string {
        CallRoute::StrKeyMethod
    } else if callee is CurrentStepClosure {
        CallRoute::CurrentStepClosure
    } else if callee is LocalGet && f.local_is_function {
        CallRoute::ClosureTypedLocal
    } else if namespace_member(callee) is Some && {
        let (ns, member) = namespace_member(callee)->0;
        let p = namespace_path_spec(t, ns, member);
        p != NamespacePath::NotNamespace && p != NamespacePath::Unresolved
    } {
        CallRoute::NamespaceMember
    } else if callee is FuncRef {
        CallRoute::FuncRef
    } else if callee is ExternFuncRef {
        CallRoute::ExternFunc
    } else if callee is PropertyGet && f.receiver_dispatched {
        CallRoute::ReceiverMethod
    } else if console_call_target(callee, n) is Some {
        CallRoute::Console
    } else if promise_static_target(callee, opt_string_view(f.global_ctor)) {
        CallRoute::PromiseStatic
    } else if (match callee {
        Expr::PropertyGet { object, property } => uses_native_dispatch(
            *object,
            property@,
            receiver_class(f.receiver),
            f.receiver.class_known,
        ),
        _ => false,
    }) {
        CallRoute::NativeMethod
    } else {
        CallRoute::ClosureFallthrough
    }
}

/// The view of an optional string.
pub open spec fn opt_string_view(s: Option<String>) -> Option<Seq<char>> {
    match s {
        Some(x) => Some(x@),
        None => None,
    }
}

fn is_namespace_route(callee: &Expr, t: &ImportTables) -> (res: bool)
    ensures
        res == (namespace_member(*callee) is Some && {
            let (ns, member) = namespace_member(*callee)->0;
            let p = namespace_path_spec(*t, ns, member);
            p != NamespacePath::NotNamespace && p != NamespacePath::Unresolved
        }),
{
    match callee {
        Expr::PropertyGet { object, property } => match &**object {
            Expr::ExternFuncRef { name } => {
                let (p, _) = namespace_path(t, name.as_str(), property.as_str());
                p != NamespacePath::NotNamespace && p != NamespacePath::Unresolved
            },
            _ => false,
        },
        _ => false,
    }
}

fn is_console_route(callee: &Expr, n: usize) -> (res: bool)
    ensures
        res == console_call_target(*callee, n as nat) is Some,
{
    match callee {
        Expr::PropertyGet { object, property } => match &**object {
            Expr::GlobalGet(_) => crate::console::console_call_plan(property.as_str(), n).is_some(),
            _ => false,
        },
        _ => false,
    }
}

fn is_promise_static_route(callee: &Expr, global_ctor: &Option<String>) -> (res: bool)
    ensures
        res == promise_static_target(*callee, opt_string_view(*global_ctor)),
{
    proof {
        reveal_strlit("Promise");
        reveal_strlit("Array");
        assert("Promise"@.len() == 7 && "Array"@.len() == 5);
    }
    match callee {
        Expr::PropertyGet { property, .. } => match global_ctor {
            Some(g) => {
                if str_eq(g.as_str(), "Promise") {
                    crate::promise::promise_static_method(property.as_str()).is_some()
                } else if str_eq(g.as_str(), "Array") {
                    str_eq(property.as_str(), "fromAsync")
                } else {
                    false
                }
            },
            None => false,
        },
        _ => false,
    }
}

/// The lowering of `callee(args)` with `n` arguments (see
/// `call_route_spec`); `t` are the module's import tables and `f` what the
/// type analysis knows of the call.
pub fn call_route(callee: &Expr, n: usize, t: &ImportTables, f: &CallFacts) -> (res: CallRoute)
    ensures
        res == call_route_spec(*callee, n as nat, *t, *f),
{
    if matches!(callee, Expr::IndexGet { .. }) && f.index_is_string {
        CallRoute::StrKeyMethod
    } else if matches!(callee, Expr::CurrentStepClosure) {
        CallRoute::CurrentStepClosure
    } else if matches!(callee, Expr::LocalGet(_)) && f.local_is_function {
        CallRoute::ClosureTypedLocal
    } else if is_namespace_route(callee, t) {
        CallRoute::NamespaceMember
    } else if matches!(callee, Expr::FuncRef(_)) {
        CallRoute::FuncRef
    } else if matches!(callee, Expr::ExternFuncRef { .. }) {
        CallRoute::ExternFunc
    } else if matches!(callee, Expr::PropertyGet { .. }) && f.receiver_dispatched {
        CallRoute::ReceiverMethod
    } else if is_console_route(callee, n) {
        CallRoute::Console
    } else if is_promise_static_route(callee, &f.global_ctor) {
        CallRoute::PromiseStatic
    } else if crate::method_dispatch::native_str_dispatch_plan(callee, &f.receiver).is_some() {
        CallRoute::NativeMethod
    } else {
        CallRoute::ClosureFallthrough
    }
}

/// A call is only routed to a lowering that accepts it: a console route
/// has a console plan, a promise route a lowering of the static method, a
/// native-dispatch route a dispatch target, and a namespace route a
/// member path that is lowered here or answered as `Elsewhere`.
pub proof fn law_routed_call_is_accepted(callee: Expr, n: nat, t: ImportTables, f: CallFacts, pre: FnBuilderV, vals: Seq<OperandV>)
    ensures
        call_route_spec(callee, n, t, f) == CallRoute::Console ==> console_call_target(callee, n) is Some,
        call_route_spec(callee, n, t, f) == CallRoute::PromiseStatic ==> promise_static_result(
            pre,
            callee,
            opt_string_view(f.global_ctor),
            vals,
        ) is Some,
        call_route_spec(callee, n, t, f) == CallRoute::NativeMethod ==> native_str_dispatch_target(callee, f.receiver)
            is Some,
        call_route_spec(callee, n, t, f) == CallRoute::NamespaceMember ==> namespace_member(callee) is Some && {
            let (ns, member) = namespace_member(callee)->0;
            let p = namespace_path_spec(t, ns, member);
            p != NamespacePath::NotNamespace && p != NamespacePath::Unresolved
        },
{
}

} // verus!
