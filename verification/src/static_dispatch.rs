//! Static-method calls on a class-valued receiver (`Cls.method(args)`):
//! the class the receiver denotes (a class literal, a local aliasing a
//! class, a call of a function known to return one, or a sequence ending
//! in one), the static method found up its `extends` chain, and the direct
//! call of its body with `this` bound to the receiver for the call.

use vstd::prelude::*;

use crate::class_layout::{find_class, find_class_exec, lemma_find_class, ClassInfo};
use crate::hir::{Expr, LocalId};
use crate::ir::{args_view, copy_operand, lemma_append_cur_empty, lemma_append_cur_twice, operands_view, FnBuilder, FnBuilderV, Inst, InstV, Operand, OperandV, Ty};
use crate::marshal::{array_insts, emit_js_array};
use crate::method_resolution::{lookup_method, lookup_method_exec};
use crate::namespace_call::{lookup_pair, lookup_pair_exec};
use crate::receiver_methods::name_chain_ends;
use crate::text::str_eq;

verus! {

/// A parameter of a static method: its name and whether it is a rest
/// parameter.
pub struct ParamInfo {
    pub name: String,
    pub is_rest: bool,
}

/// A static method declared by a class.
pub struct StaticMethodInfo {
    pub class: String,
    pub name: String,
    pub params: Vec<ParamInfo>,
}

/// What static dispatch reads: the classes, their static methods, the
/// method table (`(class, method, function)`), the names of the locals,
/// the locals known to alias a class (by local name), the functions known
/// to return a class, and the class ids.
pub struct StaticTables {
    pub classes: Vec<ClassInfo>,
    pub statics: Vec<StaticMethodInfo>,
    pub methods: Vec<(String, String, String)>,
    pub local_names: Vec<(LocalId, String)>,
    pub class_aliases: Vec<(String, String)>,
    pub func_returns_class: Vec<(u32, String)>,
    pub class_ids: Vec<(String, u32)>,
}

/// The name of the first entry of `entries` keyed `k`.
pub open spec fn lookup_id_name(entries: Seq<(u32, String)>, k: u32) -> Option<Seq<char>>
    decreases entries.len(),
{
    if entries.len() == 0 {
        None
    } else if entries[0].0 == k {
        Some(entries[0].1@)
    } else {
        lookup_id_name(entries.drop_first(), k)
    }
}

fn lookup_id_name_exec(entries: &Vec<(u32, String)>, k: u32) -> (res: Option<String>)
    ensures
        match res {
            Some(v) => lookup_id_name(entries@, k) == Some(v@),
            None => lookup_id_name(entries@, k) is None,
        },
{
    let mut i: usize = 0;
    assert(entries@.skip(0) =~= entries@);
    while i < entries.len()
        invariant
            i <= entries@.len(),
            lookup_id_name(entries@, k) == lookup_id_name(entries@.skip(i as int), k),
        decreases entries@.len() - i,
    {
        assert(entries@.skip(i as int).drop_first() =~= entries@.skip(i + 1));
        if entries[i].0 == k {
            return Some(entries[i].1.clone());
        }
        i = i + 1;
    }
    None
}

/// The id of the first entry of `entries` naming class `c`.
pub open spec fn lookup_class_id(entries: Seq<(String, u32)>, c: Seq<char>) -> Option<u32>
    decreases entries.len(),
{
    if entries.len() == 0 {
        None
    } else if entries[0].0@ == c {
        Some(entries[0].1)
    } else {
        lookup_class_id(entries.drop_first(), c)
    }
}

fn lookup_class_id_exec(entries: &Vec<(String, u32)>, c: &str) -> (res: Option<u32>)
    ensures
        res == lookup_class_id(entries@, c@),
{
    let mut i: usize = 0;
    assert(entries@.skip(0) =~= entries@);
    while i < entries.len()
        invariant
            i <= entries@.len(),
            lookup_class_id(entries@, c@) == lookup_class_id(entries@.skip(i as int), c@),
        decreases entries@.len() - i,
    {
        assert(entries@.skip(i as int).drop_first() =~= entries@.skip(i + 1));
        if str_eq(entries[i].0.as_str(), c) {
            return Some(entries[i].1);
        }
        i = i + 1;
    }
    None
}

/// The class a static-dispatch receiver denotes: a class literal's class;
/// the class a local aliases (looked up by the local's name); the class a
/// called function is known to return; the class of a sequence's last
/// expression. `None` for any other receiver.
pub open spec fn static_dispatch_class(
    e: Expr,
    local_names: Seq<(u32, String)>,
    aliases: Seq<(String, String)>,
    class_returns: Seq<(u32, String)>,
) -> Option<Seq<char>>
    decreases e,
{
    match e {
        Expr::ClassRef(name) => Some(name@),
        Expr::LocalGet(id) => match lookup_id_name(local_names, id) {
            Some(n) => lookup_pair(aliases, n),
            None => None,
        },
        Expr::Call { callee, .. } => match *callee {
            Expr::FuncRef(fid) => lookup_id_name(class_returns, fid),
            _ => None,
        },
        Expr::Sequence(es) => if es@.len() == 0 {
            None
        } else {
            static_dispatch_class(es@.last(), local_names, aliases, class_returns)
        },
        _ => None,
    }
}

/// The class a static-dispatch receiver denotes (see
/// `static_dispatch_class`).
pub fn resolve_static_dispatch_cls(e: &Expr, t: &StaticTables) -> (res: Option<String>)
    ensures
        match res {
            Some(c) => static_dispatch_class(*e, t.local_names@, t.class_aliases@, t.func_returns_class@) == Some(c@),
            None => static_dispatch_class(*e, t.local_names@, t.class_aliases@, t.func_returns_class@) is None,
        },
    decreases e,
{
    match e {
        Expr::ClassRef(name) => Some(name.clone()),
        Expr::LocalGet(id) => match lookup_id_name_exec(&t.local_names, *id) {
            Some(n) => lookup_pair_exec(&t.class_aliases, n.as_str()),
            None => None,
        },
        Expr::Call { callee, .. } => match &**callee {
            Expr::FuncRef(fid) => lookup_id_name_exec(&t.func_returns_class, *fid),
            _ => None,
        },
        Expr::Sequence(es) => {
            if es.len() == 0 {
                None
            } else {
                let last = &es[es.len() - 1];
                assert(decreases_to!(*e => es@[es@.len() - 1]));
                resolve_static_dispatch_cls(last, t)
            }
        },
        _ => None,
    }
}

/// Whether static method `m` is `p` of class `c`.
pub open spec fn static_is(m: StaticMethodInfo, c: Seq<char>, p: Seq<char>) -> bool {
    m.class@ == c && m.name@ == p
}

/// The index of the first static method `p` of class `c`.
pub open spec fn find_static(statics: Seq<StaticMethodInfo>, c: Seq<char>, p: Seq<char>) -> Option<int>
    decreases statics.len(),
{
    if statics.len() == 0 {
        None
    } else {
        match find_static(statics.drop_last(), c, p) {
            Some(k) => Some(k),
            None => if static_is(statics.last(), c, p) {
                Some(statics.len() - 1)
            } else {
                None
            },
        }
    }
}

proof fn lemma_find_static(statics: Seq<StaticMethodInfo>, c: Seq<char>, p: Seq<char>)
    ensures
        match find_static(statics, c, p) {
            Some(k) => 0 <= k < statics.len() && static_is(statics[k], c, p) && forall|j: int|
                0 <= j < k ==> !static_is(#[trigger] statics[j], c, p),
            None => forall|j: int| 0 <= j < statics.len() ==> !static_is(#[trigger] statics[j], c, p),
        },
    decreases statics.len(),
{
    if statics.len() > 0 {
        let d = statics.drop_last();
        lemma_find_static(d, c, p);
        assert forall|j: int| 0 <= j < d.len() implies d[j] == statics[j] by {}
    }
}

fn find_static_exec(statics: &Vec<StaticMethodInfo>, c: &str, p: &str) -> (res: Option<usize>)
    ensures
        match res {
            Some(k) => find_static(statics@, c@, p@) == Some(k as int),
            None => find_static(statics@, c@, p@) is None,
        },
{
    proof {
        lemma_find_static(statics@, c@, p@);
    }
    let mut i: usize = 0;
    while i < statics.len()
        invariant
            i <= statics@.len(),
            forall|j: int| 0 <= j < i ==> !static_is(#[trigger] statics@[j], c@, p@),
        decreases statics@.len() - i,
    {
        if str_eq(statics[i].class.as_str(), c) && str_eq(statics[i].name.as_str(), p) {
            proof {
                lemma_find_static(statics@, c@, p@);
                assert(static_is(statics@[i as int], c@, p@));
                match find_static(statics@, c@, p@) {
                    Some(j) => {
                        if j < i {
                            assert(!static_is(statics@[j], c@, p@));
                        }
                    },
                    None => {},
                }
            }
            return Some(i);
        }
        i = i + 1;
    }
    None
}

/// The static method `p` that class `c` answers: walking up the `extends`
/// chain through the known classes (at most `fuel` steps), the first class
/// that declares a static `p` registered in the method table; its
/// function and the index of its declaration.
pub open spec fn resolve_static_spec(
    classes: Seq<ClassInfo>,
    statics: Seq<StaticMethodInfo>,
    methods: Seq<(String, String, String)>,
    c: Seq<char>,
    p: Seq<char>,
    fuel: nat,
) -> Option<(Seq<char>, int)>
    decreases fuel,
{
    match find_class(classes, c) {
        None => None,
        Some(i) => {
            let here = match find_static(statics, c, p) {
                Some(k) => match lookup_method(methods, c, p) {
                    Some(f) => Some((f, k)),
                    None => None,
                },
                None => None,
            };
            if here is Some {
                here
            } else {
                match classes[i].extends {
                    Some(e) => if fuel > 0 {
                        resolve_static_spec(classes, statics, methods, e@, p, (fuel - 1) as nat)
                    } else {
                        None
                    },
                    None => None,
                }
            }
        },
    }
}

proof fn lemma_resolve_static_index(
    classes: Seq<ClassInfo>,
    statics: Seq<StaticMethodInfo>,
    methods: Seq<(String, String, String)>,
    c: Seq<char>,
    p: Seq<char>,
    fuel: nat,
)
    ensures
        match resolve_static_spec(classes, statics, methods, c, p, fuel) {
            Some((_, k)) => 0 <= k < statics.len(),
            None => true,
        },
    decreases fuel,
{
    lemma_find_static(statics, c, p);
    match find_class(classes, c) {
        Some(i) => match classes[i].extends {
            Some(e) => if fuel > 0 {
                lemma_resolve_static_index(classes, statics, methods, e@, p, (fuel - 1) as nat);
            },
            None => {},
        },
        None => {},
    }
}

fn resolve_static_from(t: &StaticTables, c: &str, p: &str, fuel: usize) -> (res: Option<(String, usize)>)
    requires
        name_chain_ends(t.classes@, c@, fuel as nat),
    ensures
        match res {
            Some((f, k)) => resolve_static_spec(t.classes@, t.statics@, t.methods@, c@, p@, fuel as nat) == Some(
                (f@, k as int),
            ),
            None => resolve_static_spec(t.classes@, t.statics@, t.methods@, c@, p@, fuel as nat) is None,
        },
    decreases fuel,
{
    proof {
        lemma_find_class(t.classes@, c@);
    }
    let i = match find_class_exec(&t.classes, c) {
        Some(i) => i,
        None => return None,
    };
    if let Some(k) = find_static_exec(&t.statics, c, p) {
        if let Some(f) = lookup_method_exec(&t.methods, c, p) {
            return Some((f, k));
        }
    }
    match &t.classes[i].extends {
        Some(e) => if fuel > 0 {
            resolve_static_from(t, e.as_str(), p, fuel - 1)
        } else {
            None
        },
        None => None,
    }
}

/// An array of `vals` built from register `r`: `js_array_alloc` with the
/// count, a push of each value in order, and the final array NaN-boxed as
/// a pointer (into register `r + 1 + vals.len()`).
pub open spec fn bundle_insts(vals: Seq<OperandV>, r: int) -> Seq<InstV> {
    array_insts(vals, r) + seq![
        InstV::NanboxPointer { dest: (r + 1 + vals.len()) as u64, val: OperandV::Reg((r + vals.len()) as u64) },
    ]
}

/// Whether a static method's last parameter is a rest parameter.
pub open spec fn has_rest(m: StaticMethodInfo) -> bool {
    m.params@.len() > 0 && m.params@.last().is_rest
}

/// Whether a static method's last parameter is the rest parameter
/// `arguments` the HIR adds to a body that reads `arguments`.
pub open spec fn synth_arguments(m: StaticMethodInfo) -> bool {
    has_rest(m) && m.params@.last().name@ == "arguments"@
}

/// The arguments a static method is called with, from register `r`: all
/// values bundled into one array for the synthesized `arguments` rest
/// parameter; the leading values for the declared parameters before a
/// rest parameter, then the remaining ones bundled; else the values as
/// they are. The instructions, the arguments and the next free register.
pub open spec fn static_args(m: StaticMethodInfo, vals: Seq<OperandV>, r: int) -> (Seq<InstV>, Seq<OperandV>, int) {
    if synth_arguments(m) {
        (bundle_insts(vals, r), seq![OperandV::Reg((r + 1 + vals.len()) as u64)], r + 2 + vals.len())
    } else if has_rest(m) {
        let fixed = if m.params@.len() - 1 <= vals.len() {
            m.params@.len() - 1
        } else {
            vals.len() as int
        };
        let rest = vals.skip(fixed);
        (bundle_insts(rest, r), vals.take(fixed).push(OperandV::Reg((r + 1 + rest.len()) as u64)), r + 2 + rest.len())
    } else {
        (Seq::empty(), vals, r)
    }
}

/// `js_implicit_this_set(v)` into register `dest`: binds `this` for a
/// direct call and returns the previous binding.
pub open spec fn this_set(dest: int, v: OperandV) -> InstV {
    InstV::Call { dest: Some(dest as u64), ret: Ty::Double, callee: "js_implicit_this_set"@, args: seq![(Ty::Double, v)] }
}

/// Each value passed as a `double`.
pub open spec fn doubles(vals: Seq<OperandV>) -> Seq<(Ty, OperandV)> {
    vals.map_values(|v: OperandV| (Ty::Double, v))
}

/// Whether the receiver is lowered as it is for `this` (a class literal,
/// a call or a sequence); any other receiver gets a fresh class value.
pub open spec fn receiver_is_value(e: Expr) -> bool {
    e is ClassRef || e is Call || e is Sequence
}

/// The outcome of `object.property(args)` when `object` denotes a class,
/// given the lowered receiver `recv` and arguments `vals`: when the class
/// (or an ancestor) has the static method, its function called directly
/// with the arguments of `static_args`, between a `js_implicit_this_set`
/// of the receiver (the class value, NaN-boxed from its id, `0` when
/// unknown, unless `receiver_is_value`) and one restoring the previous
/// binding; the call's result. When none does, a class literal receiver
/// is itself the result, with nothing emitted. `None` (nothing emitted)
/// when `object` denotes no class, or denotes one that is not a literal
/// and has no such static method.
pub open spec fn static_call_result(
    t: StaticTables,
    object: Expr,
    property: Seq<char>,
    recv: OperandV,
    vals: Seq<OperandV>,
    pre: FnBuilderV,
) -> Option<(FnBuilderV, OperandV)> {
    match static_dispatch_class(object, t.local_names@, t.class_aliases@, t.func_returns_class@) {
        None => None,
        Some(cls) => match resolve_static_spec(t.classes@, t.statics@, t.methods@, cls, property, t.classes@.len()) {
            Some((f, k)) => {
                let recv_box = if receiver_is_value(object) {
                    recv
                } else {
                    OperandV::Int32Box(
                        match lookup_class_id(t.class_ids@, cls) {
                            Some(id) => id,
                            None => 0,
                        },
                    )
                };
                let (pi, lowered, q) = static_args(t.statics@[k], vals, pre.next_reg);
                let insts = pi + seq![
                    this_set(q, recv_box),
                    InstV::Call { dest: Some((q + 1) as u64), ret: Ty::Double, callee: f, args: doubles(lowered) },
                    this_set(q + 2, OperandV::Reg(q as u64)),
                ];
                Some(((FnBuilderV { next_reg: q + 3, ..pre }).append_cur(insts), OperandV::Reg((q + 1) as u64)))
            },
            None => if object is ClassRef {
                Some((pre, recv))
            } else {
                None
            },
        },
    }
}

/// Emits `bundle_insts` for `vals[from..]` and returns the boxed array.
fn emit_bundle(b: &mut FnBuilder, vals: &Vec<Operand>, from: usize) -> (res: Operand)
    requires
        old(b)@.wf(),
        from <= vals@.len(),
        vals@.len() <= u32::MAX,
        old(b)@.next_reg + 2 + vals@.len() <= u64::MAX,
    ensures
        ({
            let rest = operands_view(vals@).skip(from as int);
            &&& final(b)@ == (FnBuilderV { next_reg: old(b)@.next_reg + 2 + rest.len(), ..old(b)@ }).append_cur(
                bundle_insts(rest, old(b)@.next_reg),
            )
            &&& res@ == OperandV::Reg((old(b)@.next_reg + 1 + rest.len()) as u64)
        }),
        final(b)@.wf(),
{
    let ghost pre = b@;
    let ghost rest = operands_view(vals@).skip(from as int);
    let arr = emit_js_array(b, vals, from);
    let d = b.fresh_reg();
    b.push(Inst::NanboxPointer { dest: d, val: Operand::Reg(arr) });
    proof {
        let mid = FnBuilderV { next_reg: pre.next_reg + 2 + rest.len(), ..pre };
        lemma_append_cur_twice(
            mid,
            array_insts(rest, pre.next_reg),
            seq![InstV::NanboxPointer { dest: d, val: OperandV::Reg(arr) }],
        );
    }
    Operand::Reg(d)
}

/// Emits the arguments of `static_args` and returns them.
fn emit_static_args(b: &mut FnBuilder, m: &StaticMethodInfo, vals: &Vec<Operand>) -> (res: Vec<Operand>)
    requires
        old(b)@.wf(),
        vals@.len() <= u32::MAX,
        old(b)@.next_reg + 2 + vals@.len() <= u64::MAX,
    ensures
        ({
            let (pi, lowered, q) = static_args(*m, operands_view(vals@), old(b)@.next_reg);
            &&& final(b)@ == (FnBuilderV { next_reg: q, ..old(b)@ }).append_cur(pi)
            &&& operands_view(res@) == lowered
        }),
        final(b)@.wf(),
{
    let ghost pre = b@;
    let ghost vv = operands_view(vals@);
    let np = m.params.len();
    let rest = np > 0 && m.params[np - 1].is_rest;
    let synth = rest && str_eq(m.params[np - 1].name.as_str(), "arguments");
    if synth {
        assert(vv.skip(0) =~= vv);
        let boxed = emit_bundle(b, vals, 0);
        let mut out: Vec<Operand> = Vec::new();
        out.push(boxed);
        assert(operands_view(out@) =~= seq![OperandV::Reg((pre.next_reg + 1 + vv.len()) as u64)]);
        out
    } else if rest {
        let fixed = if np - 1 <= vals.len() {
            np - 1
        } else {
            vals.len()
        };
        let mut out: Vec<Operand> = Vec::new();
        let mut k: usize = 0;
        while k < fixed
            invariant
                k <= fixed <= vals@.len(),
                vv == operands_view(vals@),
                operands_view(out@) == vv.take(k as int),
            decreases fixed - k,
        {
            let c = copy_operand(&vals[k]);
            assert(c@ == vv[k as int]);
            let ghost old_out = out@;
            out.push(c);
            assert(operands_view(out@) =~= operands_view(old_out).push(vv[k as int]));
            assert(vv.take(k + 1) =~= vv.take(k as int).push(vv[k as int]));
            k = k + 1;
        }
        let boxed = emit_bundle(b, vals, fixed);
        let ghost bv = boxed@;
        let ghost old_out = out@;
        out.push(boxed);
        assert(operands_view(out@) =~= operands_view(old_out).push(bv));
        out
    } else {
        let mut out: Vec<Operand> = Vec::new();
        let mut k: usize = 0;
        while k < vals.len()
            invariant
                k <= vals@.len(),
                vv == operands_view(vals@),
                operands_view(out@) == vv.take(k as int),
            decreases vals@.len() - k,
        {
            let c = copy_operand(&vals[k]);
            assert(c@ == vv[k as int]);
            let ghost old_out = out@;
            out.push(c);
            assert(operands_view(out@) =~= operands_view(old_out).push(vv[k as int]));
            assert(vv.take(k + 1) =~= vv.take(k as int).push(vv[k as int]));
            k = k + 1;
        }
        assert(vv.take(vv.len() as int) =~= vv);
        proof {
            lemma_append_cur_empty(pre);
        }
        out
    }
}

/// Lowers `object.property(args)` by static dispatch when `object` denotes
/// a class (see `static_call_result`): `recv` is the lowered receiver and
/// `lowered_args` the lowered arguments. `None`, with nothing emitted, when
/// the call takes another path.
pub fn try_lower_static_dispatch(
    b: &mut FnBuilder,
    t: &StaticTables,
    object: &Expr,
    property: &str,
    recv: Operand,
    lowered_args: &Vec<Operand>,
) -> (res: Option<Operand>)
    requires
        old(b)@.wf(),
        old(b)@.next_reg + 5 + lowered_args@.len() <= u64::MAX,
        lowered_args@.len() <= u32::MAX,
        match static_dispatch_class(*object, t.local_names@, t.class_aliases@, t.func_returns_class@) {
            Some(c) => name_chain_ends(t.classes@, c, t.classes@.len()),
            None => true,
        },
    ensures
        match static_call_result(*t, *object, property@, recv@, operands_view(lowered_args@), old(b)@) {
            Some((post, v)) => final(b)@ == post && (res matches Some(o) && o@ == v),
            None => final(b)@ == old(b)@ && res is None,
        },
        final(b)@.wf(),
{
    let cls = match resolve_static_dispatch_cls(object, t) {
        Some(c) => c,
        None => return None,
    };
    let (f, k) = match resolve_static_from(t, cls.as_str(), property, t.classes.len()) {
        Some(x) => x,
        None => {
            return match object {
                Expr::ClassRef(_) => Some(recv),
                _ => None,
            };
        },
    };
    proof {
        lemma_resolve_static_index(t.classes@, t.statics@, t.methods@, cls@, property@, t.classes@.len());
    }
    let ghost vv = operands_view(lowered_args@);
    let recv_box = match object {
        Expr::ClassRef(_) => recv,
        Expr::Call { .. } => recv,
        Expr::Sequence(_) => recv,
        _ => Operand::Int32Box(
            match lookup_class_id_exec(&t.class_ids, cls.as_str()) {
                Some(id) => id,
                None => 0,
            },
        ),
    };
    let ghost rb = recv_box@;
    let ghost pre = b@;
    let ghost (pi, lv, q) = static_args(t.statics@[k as int], vv, pre.next_reg);
    let lowered = emit_static_args(b, &t.statics[k], lowered_args);
    let ghost m1 = b@;
    let mut call_args: Vec<(Ty, Operand)> = Vec::new();
    let mut i: usize = 0;
    while i < lowered.len()
        invariant
            i <= lowered@.len(),
            lv == operands_view(lowered@),
            args_view(call_args@) == doubles(lv.take(i as int)),
        decreases lowered@.len() - i,
    {
        let c = copy_operand(&lowered[i]);
        assert(c@ == lv[i as int]);
        let ghost old_args = call_args@;
        call_args.push((Ty::Double, c));
        assert(args_view(call_args@) =~= args_view(old_args).push((Ty::Double, lv[i as int])));
        assert(lv.take(i + 1) =~= lv.take(i as int).push(lv[i as int]));
        assert(doubles(lv.take(i + 1)) =~= doubles(lv.take(i as int)).push((Ty::Double, lv[i as int])));
        i = i + 1;
    }
    assert(lv.take(lv.len() as int) =~= lv);
    let a0 = vec![(Ty::Double, recv_box)];
    assert(args_view(a0@) =~= seq![(Ty::Double, rb)]);
    let ghost fv = f@;
    let prev = b.call(Ty::Double, "js_implicit_this_set", a0);
    let ghost m2 = b@;
    let res = b.call(Ty::Double, f.as_str(), call_args);
    let ghost m3 = b@;
    let a2 = vec![(Ty::Double, Operand::Reg(prev))];
    assert(args_view(a2@) =~= seq![(Ty::Double, OperandV::Reg(prev))]);
    let _restored = b.call(Ty::Double, "js_implicit_this_set", a2);
    proof {
        let c0 = this_set(q, rb);
        let c1 = InstV::Call { dest: Some((q + 1) as u64), ret: Ty::Double, callee: fv, args: doubles(lv) };
        let c2 = this_set(q + 2, OperandV::Reg(q as u64));
        lemma_append_cur_twice(pre, pi, seq![c0]);
        lemma_append_cur_twice(pre, pi + seq![c0], seq![c1]);
        lemma_append_cur_twice(pre, pi + seq![c0] + seq![c1], seq![c2]);
        assert(m2.blocks == pre.append_cur(pi + seq![c0]).blocks);
        assert(m3.blocks == pre.append_cur(pi + seq![c0] + seq![c1]).blocks);
        assert(b@.blocks == pre.append_cur(pi + seq![c0] + seq![c1] + seq![c2]).blocks);
        assert(pi + seq![c0] + seq![c1] + seq![c2] =~= pi + seq![c0, c1, c2]);
    }
    Some(Operand::Reg(res))
}

} // verus!
