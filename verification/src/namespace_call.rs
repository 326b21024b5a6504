//! Member calls on a wildcard namespace import, `ns.member(args)` after
//! `import * as ns from "src"`: the member resolves to its source module's
//! export, which is either a closure-valued variable (fetched through its
//! zero-argument getter, then closure-called) or a function declaration
//! (called directly, with padding or rest bundling). Members of modules
//! running on the V8 fallback go through the runtime bridge.

use vstd::prelude::*;

use crate::call_args::{declared_or, namespace_call_slots, namespace_call_slots_spec, passed, sat_sub, ArgSlot};
use crate::closure_call::LowerError;
use crate::extern_call::{
    cross_module_symbol, cross_module_symbol_exec, imported_var_call_result, lower_imported_var_call, ExternCallPath,
    ExternOutcome,
};
use crate::hir::Expr;
use crate::ir::{lemma_append_cur_twice, operands_view, DeclareV, FnBuilder, FnBuilderV, InstV, Operand, OperandV, Ty};
use crate::marshal::{as_double_args, emit_slots, lemma_slots_regs, slots_in_range, slots_result};
use crate::text::str_eq;

verus! {

/// What a module knows of its imports, as lookup lists.
pub struct ImportTables {
    /// The local names of wildcard namespace imports.
    pub namespace_imports: Vec<String>,
    /// The namespaces whose source module runs on the V8 fallback.
    pub namespace_v8: Vec<String>,
    /// `(namespace, member, source prefix)`: the source of a member, per
    /// namespace.
    pub member_prefixes: Vec<(String, String, String)>,
    /// `(name, source prefix)`: the source of an imported name.
    pub function_prefixes: Vec<(String, String)>,
    /// Imported names whose source module runs on the V8 fallback.
    pub function_v8: Vec<String>,
    /// Imported names bound to variables (closure-valued exports).
    pub imported_vars: Vec<String>,
}

/// Whether `s` is among `names`.
pub open spec fn has_name(names: Seq<String>, s: Seq<char>) -> bool {
    exists|k: int| 0 <= k < names.len() && #[trigger] names[k]@ == s
}

/// The value of the first entry of `pairs` keyed `key`.
pub open spec fn lookup_pair(pairs: Seq<(String, String)>, key: Seq<char>) -> Option<Seq<char>>
    decreases pairs.len(),
{
    if pairs.len() == 0 {
        None
    } else if pairs[0].0@ == key {
        Some(pairs[0].1@)
    } else {
        lookup_pair(pairs.drop_first(), key)
    }
}

/// The value of the first entry of `triples` keyed `(a, b)`.
pub open spec fn lookup_triple(triples: Seq<(String, String, String)>, a: Seq<char>, b: Seq<char>) -> Option<Seq<char>>
    decreases triples.len(),
{
    if triples.len() == 0 {
        None
    } else if triples[0].0@ == a && triples[0].1@ == b {
        Some(triples[0].2@)
    } else {
        lookup_triple(triples.drop_first(), a, b)
    }
}

/// The source prefix of `ns.member`: the per-namespace entry first (two
/// namespaces may both export a `member`), else the flat one of `member`.
pub open spec fn member_prefix_spec(t: ImportTables, ns: Seq<char>, member: Seq<char>) -> Option<Seq<char>> {
    match lookup_triple(t.member_prefixes@, ns, member) {
        Some(p) => Some(p),
        None => lookup_pair(t.function_prefixes@, member),
    }
}

/// How `ns.member(args)` is lowered.
#[derive(Copy, Clone, Debug, PartialEq, Eq, Structural)]
pub enum NamespacePath {
    /// `ns` is not a namespace import: another lowering applies.
    NotNamespace,
    /// The namespace's module runs on the V8 fallback: the runtime bridge.
    V8Namespace,
    /// The member's source is unknown: another lowering applies.
    Unresolved,
    /// The member's module runs on the V8 fallback: the runtime bridge.
    V8Member,
    /// A closure-valued variable: its getter, then a closure call.
    ImportedVar,
    /// A function declaration: a direct call of its symbol.
    Declaration,
}

/// How `ns.member(args)` is lowered, in the order the checks are made.
pub open spec fn namespace_path_spec(t: ImportTables, ns: Seq<char>, member: Seq<char>) -> NamespacePath {
    if !has_name(t.namespace_imports@, ns) {
        NamespacePath::NotNamespace
    } else if has_name(t.namespace_v8@, ns) {
        NamespacePath::V8Namespace
    } else if member_prefix_spec(t, ns, member) is None {
        NamespacePath::Unresolved
    } else if has_name(t.function_v8@, member) {
        NamespacePath::V8Member
    } else if has_name(t.imported_vars@, member) {
        NamespacePath::ImportedVar
    } else {
        NamespacePath::Declaration
    }
}

fn has_name_exec(names: &Vec<String>, s: &str) -> (res: bool)
    ensures
        res == has_name(names@, s@),
{
    let mut k: usize = 0;
    while k < names.len()
        invariant
            k <= names@.len(),
            forall|j: int| 0 <= j < k ==> #[trigger] names@[j]@ != s@,
        decreases names@.len() - k,
    {
        if str_eq(names[k].as_str(), s) {
            return true;
        }
        k = k + 1;
    }
    false
}

pub(crate) fn lookup_pair_exec(pairs: &Vec<(String, String)>, key: &str) -> (res: Option<String>)
    ensures
        match res {
            Some(v) => lookup_pair(pairs@, key@) == Some(v@),
            None => lookup_pair(pairs@, key@) is None,
        },
{
    let mut k: usize = 0;
    assert(pairs@.skip(0) =~= pairs@);
    while k < pairs.len()
        invariant
            k <= pairs@.len(),
            lookup_pair(pairs@, key@) == lookup_pair(pairs@.skip(k as int), key@),
        decreases pairs@.len() - k,
    {
        assert(pairs@.skip(k as int).drop_first() =~= pairs@.skip(k + 1));
        if str_eq(pairs[k].0.as_str(), key) {
            return Some(pairs[k].1.clone());
        }
        k = k + 1;
    }
    None
}

fn lookup_triple_exec(triples: &Vec<(String, String, String)>, a: &str, b: &str) -> (res: Option<String>)
    ensures
        match res {
            Some(v) => lookup_triple(triples@, a@, b@) == Some(v@),
            None => lookup_triple(triples@, a@, b@) is None,
        },
{
    let mut k: usize = 0;
    assert(triples@.skip(0) =~= triples@);
    while k < triples.len()
        invariant
            k <= triples@.len(),
            lookup_triple(triples@, a@, b@) == lookup_triple(triples@.skip(k as int), a@, b@),
        decreases triples@.len() - k,
    {
        assert(triples@.skip(k as int).drop_first() =~= triples@.skip(k + 1));
        if str_eq(triples[k].0.as_str(), a) && str_eq(triples[k].1.as_str(), b) {
            return Some(triples[k].2.clone());
        }
        k = k + 1;
    }
    None
}

/// The source prefix of `ns.member` (see `member_prefix_spec`).
pub fn member_prefix(t: &ImportTables, ns: &str, member: &str) -> (res: Option<String>)
    ensures
        match res {
            Some(p) => member_prefix_spec(*t, ns@, member@) == Some(p@),
            None => member_prefix_spec(*t, ns@, member@) is None,
        },
{
    match lookup_triple_exec(&t.member_prefixes, ns, member) {
        Some(p) => Some(p),
        None => lookup_pair_exec(&t.function_prefixes, member),
    }
}

/// How `ns.member(args)` is lowered, with the member's source prefix when
/// it has one.
pub fn namespace_path(t: &ImportTables, ns: &str, member: &str) -> (res: (NamespacePath, Option<String>))
    ensures
        res.0 == namespace_path_spec(*t, ns@, member@),
        match res.1 {
            Some(p) => member_prefix_spec(*t, ns@, member@) == Some(p@),
            None => member_prefix_spec(*t, ns@, member@) is None,
        },
{
    let prefix = member_prefix(t, ns, member);
    let path = if !has_name_exec(&t.namespace_imports, ns) {
        NamespacePath::NotNamespace
    } else if has_name_exec(&t.namespace_v8, ns) {
        NamespacePath::V8Namespace
    } else if prefix.is_none() {
        NamespacePath::Unresolved
    } else if has_name_exec(&t.function_v8, member) {
        NamespacePath::V8Member
    } else if has_name_exec(&t.imported_vars, member) {
        NamespacePath::ImportedVar
    } else {
        NamespacePath::Declaration
    };
    (path, prefix)
}

/// The function state and result of a namespace-member call of the
/// function declaration `fname` with the lowered arguments `vals`, from
/// `pre`: the argument slots laid out (padding, or the passed fixed
/// arguments and the rest array), the function declared with one `double`
/// parameter per slot, and the call.
pub open spec fn namespace_decl_call_result(
    pre: FnBuilderV,
    fname: Seq<char>,
    declared: Option<usize>,
    has_rest: bool,
    vals: Seq<OperandV>,
) -> (FnBuilderV, OperandV) {
    let slots = namespace_call_slots_spec(declared, has_rest, vals.len());
    let (si, ops, next) = slots_result(slots, vals, pre.next_reg);
    let decl = DeclareV { name: fname, ret: Ty::Double, params: Seq::new(slots.len(), |i: int| Ty::Double) };
    (
        (FnBuilderV { next_reg: next + 1, declares: pre.declares.push(decl), ..pre }).append_cur(
            si.push(
                InstV::Call {
                    dest: Some(next as u64),
                    ret: Ty::Double,
                    callee: fname,
                    args: ops.map_values(|o: OperandV| (Ty::Double, o)),
                },
            ),
        ),
        OperandV::Reg(next as u64),
    )
}

/// `n` `double` parameter types.
fn doubles(n: usize) -> (res: Vec<Ty>)
    ensures
        res@ == Seq::new(n as nat, |i: int| Ty::Double),
{
    let mut v: Vec<Ty> = Vec::new();
    let mut i: usize = 0;
    while i < n
        invariant
            i <= n,
            v@ =~= Seq::new(i as nat, |k: int| Ty::Double),
        decreases n - i,
    {
        v.push(Ty::Double);
        i = i + 1;
    }
    v
}

proof fn lemma_namespace_slots(declared: Option<usize>, has_rest: bool, n: nat)
    ensures
        ({
            let slots = namespace_call_slots_spec(declared, has_rest, n);
            &&& slots.len() <= declared_or(declared, n) + n + 1
            &&& slots_in_range(slots, n)
        }),
{
    let d = declared_or(declared, n);
    let slots = namespace_call_slots_spec(declared, has_rest, n);
    if has_rest {
        let fixed = sat_sub(d, 1);
        assert(passed(fixed, n).len() <= n);
        assert forall|k: int| 0 <= k < slots.len() implies (#[trigger] slots[k] matches ArgSlot::Arg(i) ==> i < n) by {
            if k < slots.len() - 1 {
                assert(slots[k] == passed(fixed, n)[k]);
            }
        }
    }
}

/// Lowers a namespace-member call of the function declaration
/// `perry_fn_<source_prefix>__<origin_suffix>` with the lowered arguments:
/// with a rest parameter, the passed fixed arguments then the rest array;
/// without, the arguments padded with `undefined` up to the declared count
/// (`declared`, when known); the function declared with exactly the
/// parameters it is called with.
pub fn lower_namespace_decl_call(
    b: &mut FnBuilder,
    source_prefix: &str,
    origin_suffix: &str,
    declared: Option<usize>,
    has_rest: bool,
    lowered: &Vec<Operand>,
) -> (res: Operand)
    requires
        old(b)@.wf(),
        lowered@.len() <= u32::MAX,
        old(b)@.next_reg + (declared_or(declared, lowered@.len()) + lowered@.len() + 1) * (lowered@.len() + 3) + 2
            <= u64::MAX,
    ensures
        ({
            let (post, result) = namespace_decl_call_result(
                old(b)@,
                cross_module_symbol(source_prefix@, origin_suffix@),
                declared,
                has_rest,
                operands_view(lowered@),
            );
            &&& final(b)@ == post
            &&& res@ == result
        }),
        final(b)@.wf(),
{
    let ghost pre = b@;
    let ghost vv = operands_view(lowered@);
    let fname = cross_module_symbol_exec(source_prefix, origin_suffix);
    let slots = namespace_call_slots(declared, has_rest, lowered.len());
    proof {
        lemma_namespace_slots(declared, has_rest, lowered@.len() as nat);
        let d = declared_or(declared, lowered@.len() as nat);
        let m = d + lowered@.len() + 1;
        assert(slots@.len() * (lowered@.len() + 3) <= m * (lowered@.len() + 3)) by (nonlinear_arith)
            requires
                slots@.len() <= m,
        ;
    }
    b.declare(fname.as_str(), Ty::Double, doubles(slots.len()));
    let ghost s1 = b@;
    let ops = emit_slots(b, &slots, lowered);
    proof {
        lemma_slots_regs(slots@, vv, s1.next_reg);
    }
    let ghost (si, opv, next) = slots_result(slots@, vv, pre.next_reg);
    let args = as_double_args(ops);
    let r = b.call(Ty::Double, fname.as_str(), args);
    proof {
        let st = FnBuilderV { next_reg: next + 1, declares: s1.declares, ..pre };
        let c = InstV::Call {
            dest: Some(next as u64),
            ret: Ty::Double,
            callee: fname@,
            args: opv.map_values(|o: OperandV| (Ty::Double, o)),
        };
        lemma_append_cur_twice(st, si, seq![c]);
        assert(si + seq![c] =~= si.push(c));
    }
    Operand::Reg(r)
}

/// The namespace and member of a callee `ns.member`.
pub open spec fn namespace_member(callee: Expr) -> Option<(Seq<char>, Seq<char>)> {
    match callee {
        Expr::PropertyGet { object, property } => match *object {
            Expr::ExternFuncRef { name } => Some((name@, property@)),
            _ => None,
        },
        _ => None,
    }
}

/// Lowers `ns.member(args)` on a wildcard namespace import (see
/// `namespace_path_spec`): a closure-valued member through its getter and
/// `js_closure_call<N>` (more than sixteen arguments is an error), a
/// function declaration by a direct call; members of a V8-fallback module
/// are answered as `Elsewhere(V8Bridge)`, with nothing emitted. `Ok(None)`,
/// with nothing emitted, when the callee is no such member or the member's
/// source is unknown. `origin_suffix` is the name the origin module
/// exports the member under; `declared` and `has_rest` describe a function
/// declaration's parameters; `lowered` are the lowered arguments.
pub fn try_lower_namespace_member_call(
    b: &mut FnBuilder,
    callee: &Expr,
    t: &ImportTables,
    origin_suffix: &str,
    declared: Option<usize>,
    has_rest: bool,
    lowered: &Vec<Operand>,
) -> (res: Result<Option<ExternOutcome>, LowerError>)
    requires
        old(b)@.wf(),
        lowered@.len() <= u32::MAX,
        old(b)@.next_reg + (declared_or(declared, lowered@.len()) + lowered@.len() + 1) * (lowered@.len() + 3) + 3
            <= u64::MAX,
    ensures
        final(b)@.wf(),
        match namespace_member(*callee) {
            None => res matches Ok(None) && final(b)@ == old(b)@,
            Some((ns, member)) => {
                let vals = operands_view(lowered@);
                let fname = cross_module_symbol(member_prefix_spec(*t, ns, member)->0, origin_suffix@);
                match namespace_path_spec(*t, ns, member) {
                    NamespacePath::NotNamespace | NamespacePath::Unresolved => res matches Ok(None) && final(b)@
                        == old(b)@,
                    NamespacePath::V8Namespace | NamespacePath::V8Member => (res matches Ok(
                        Some(ExternOutcome::Elsewhere(p)),
                    ) && p == ExternCallPath::V8Bridge) && final(b)@ == old(b)@,
                    NamespacePath::ImportedVar => if vals.len() > 16 {
                        res == Err::<Option<ExternOutcome>, LowerError>(
                            LowerError::NamespaceClosureArity { nargs: vals.len() as usize },
                        ) && final(b)@ == old(b)@
                    } else {
                        let (post, r) = imported_var_call_result(old(b)@, fname, vals);
                        (res matches Ok(Some(ExternOutcome::Lowered(o))) && o@ == r) && final(b)@ == post
                    },
                    NamespacePath::Declaration => {
                        let (post, r) = namespace_decl_call_result(old(b)@, fname, declared, has_rest, vals);
                        (res matches Ok(Some(ExternOutcome::Lowered(o))) && o@ == r) && final(b)@ == post
                    },
                }
            },
        },
{
    let (ns, member) = match callee {
        Expr::PropertyGet { object, property } => match &**object {
            Expr::ExternFuncRef { name } => (name.as_str(), property.as_str()),
            _ => return Ok(None),
        },
        _ => return Ok(None),
    };
    let (path, prefix) = namespace_path(t, ns, member);
    proof {
        let d = declared_or(declared, lowered@.len() as nat);
        let n = lowered@.len() as nat;
        assert(n <= (d + n + 1) * (n + 3)) by (nonlinear_arith);
    }
    match path {
        NamespacePath::NotNamespace | NamespacePath::Unresolved => Ok(None),
        NamespacePath::V8Namespace | NamespacePath::V8Member => Ok(Some(ExternOutcome::Elsewhere(ExternCallPath::V8Bridge))),
        NamespacePath::ImportedVar => {
            let p = prefix.unwrap();
            match lower_imported_var_call(b, p.as_str(), origin_suffix, lowered) {
                Ok(o) => Ok(Some(ExternOutcome::Lowered(o))),
                Err(_) => Err(LowerError::NamespaceClosureArity { nargs: lowered.len() }),
            }
        },
        NamespacePath::Declaration => {
            let p = prefix.unwrap();
            let o = lower_namespace_decl_call(b, p.as_str(), origin_suffix, declared, has_rest, lowered);
            Ok(Some(ExternOutcome::Lowered(o)))
        },
    }
}

/// The keys of `pairs` are distinct, as those of the map they stand for.
pub open spec fn pair_keys_unique(pairs: Seq<(String, String)>) -> bool {
    forall|i: int, j: int| 0 <= i < j < pairs.len() ==> pairs[i].0@ != pairs[j].0@
}

/// With distinct keys, `lookup_pair` is the lookup of a map: for the key of
/// an entry it answers that entry's value (so the entries' order does not
/// matter), and for a key no entry has it answers `None`.
pub proof fn law_lookup_pair_is_map_lookup(pairs: Seq<(String, String)>, key: Seq<char>)
    requires
        pair_keys_unique(pairs),
    ensures
        forall|k: int| 0 <= k < pairs.len() && #[trigger] pairs[k].0@ == key ==> lookup_pair(pairs, key) == Some(pairs[k].1@),
        (forall|k: int| 0 <= k < pairs.len() ==> #[trigger] pairs[k].0@ != key) ==> lookup_pair(pairs, key) is None,
    decreases pairs.len(),
{
    if pairs.len() > 0 {
        let t = pairs.drop_first();
        assert forall|i: int, j: int| 0 <= i < j < t.len() implies t[i].0@ != t[j].0@ by {
            assert(t[i] == pairs[i + 1] && t[j] == pairs[j + 1]);
        }
        law_lookup_pair_is_map_lookup(t, key);
        assert forall|k: int| 0 <= k < pairs.len() && #[trigger] pairs[k].0@ == key implies lookup_pair(pairs, key) == Some(
            pairs[k].1@,
        ) by {
            if k > 0 {
                assert(t[k - 1] == pairs[k]);
            }
        }
        if forall|k: int| 0 <= k < pairs.len() ==> #[trigger] pairs[k].0@ != key {
            assert forall|k: int| 0 <= k < t.len() implies #[trigger] t[k].0@ != key by {
                assert(t[k] == pairs[k + 1]);
            }
        }
    }
}

} // verus!
