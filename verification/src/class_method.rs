//! Calls of a method on a user-class instance, `recv.p(args)`: which
//! body (or dispatch tower) the call goes to and how its arguments are
//! laid out, and the emission of the direct call, the own-property
//! override probe and the class-id switch towers.

use vstd::prelude::*;

use crate::call_args::{extern_call_slots, extern_call_slots_spec, law_extern_call_arity, ArgSlot};
use crate::class_layout::{find_class, find_class_exec, lemma_find_class, ClassInfo};
use crate::method_resolution::{
    lookup_method,
    dispatch_implementors, entries_view, implementors_spec, needs_dynamic_dispatch, needs_dynamic_dispatch_spec,
    resolve_method, resolve_method_spec,
};
use crate::receiver_methods::name_chain_ends;
use crate::ir::{args_view, copy_operand, insts_view, Arg, BlockV, FnBuilder, FnBuilderV, Inst, InstV, Operand, OperandV, Ty};
use crate::ir::{lemma_append_cur_twice, operands_view};
use crate::marshal::{as_double_args, emit_sized_args_buffer, emit_slots, lemma_slots_regs, sized_buffer_result, slots_in_range, slots_result};
use crate::override_check::{
    after_spill_reg, emit_own_method_override_check, override_check_result, emit_override_path, emit_probe, intern_index, intern_strings, override_path_result, probe_result_named,
    user_arg_count,
};
use crate::text::{decimal, opt_view, push_decimal, str_eq};

verus! {

/// The signature entry of `(class c, method p)` in `sigs` (`(class, method,
/// parameter count, has a rest parameter)` entries), the first such.
pub open spec fn lookup_sig(sigs: Seq<(String, String, usize, bool)>, c: Seq<char>, p: Seq<char>) -> Option<(usize, bool)>
    decreases sigs.len(),
{
    if sigs.len() == 0 {
        None
    } else if sigs[0].0@ == c && sigs[0].1@ == p {
        Some((sigs[0].2, sigs[0].3))
    } else {
        lookup_sig(sigs.drop_first(), c, p)
    }
}

fn lookup_sig_exec(sigs: &Vec<(String, String, usize, bool)>, c: &str, p: &str) -> (res: Option<(usize, bool)>)
    ensures
        res == lookup_sig(sigs@, c@, p@),
{
    let mut k: usize = 0;
    assert(sigs@.skip(0) =~= sigs@);
    while k < sigs.len()
        invariant
            k <= sigs@.len(),
            lookup_sig(sigs@, c@, p@) == lookup_sig(sigs@.skip(k as int), c@, p@),
        decreases sigs@.len() - k,
    {
        assert(sigs@.skip(k as int).drop_first() =~= sigs@.skip(k + 1));
        assert(sigs@.skip(k as int)[0] == sigs@[k as int]);
        if str_eq(sigs[k].0.as_str(), c) && str_eq(sigs[k].1.as_str(), p) {
            return Some((sigs[k].2, sigs[k].3));
        }
        k = k + 1;
    }
    None
}

/// The parameter count of `p` on the first class of `c`'s chain (itself,
/// then its ancestors) that has a signature entry for it.
pub open spec fn chain_arity(
    classes: Seq<ClassInfo>,
    sigs: Seq<(String, String, usize, bool)>,
    c: Seq<char>,
    p: Seq<char>,
    fuel: nat,
) -> Option<usize>
    decreases fuel,
{
    match lookup_sig(sigs, c, p) {
        Some((n, _)) => Some(n),
        None => match find_class(classes, c) {
            Some(i) => match classes[i].extends {
                Some(e) => if fuel > 0 {
                    chain_arity(classes, sigs, e@, p, (fuel - 1) as nat)
                } else {
                    None
                },
                None => None,
            },
            None => None,
        },
    }
}

/// The parameter count of `p` on the first class of `c`'s chain whose
/// entry for it has a rest parameter.
pub open spec fn chain_rest(
    classes: Seq<ClassInfo>,
    sigs: Seq<(String, String, usize, bool)>,
    c: Seq<char>,
    p: Seq<char>,
    fuel: nat,
) -> Option<usize>
    decreases fuel,
{
    match lookup_sig(sigs, c, p) {
        Some((n, true)) => Some(n),
        _ => match find_class(classes, c) {
            Some(i) => match classes[i].extends {
                Some(e) => if fuel > 0 {
                    chain_rest(classes, sigs, e@, p, (fuel - 1) as nat)
                } else {
                    None
                },
                None => None,
            },
            None => None,
        },
    }
}

fn chain_arity_exec(
    classes: &Vec<ClassInfo>,
    sigs: &Vec<(String, String, usize, bool)>,
    c: &str,
    p: &str,
    fuel: usize,
) -> (res: Option<usize>)
    ensures
        res == chain_arity(classes@, sigs@, c@, p@, fuel as nat),
    decreases fuel,
{
    if let Some((n, _)) = lookup_sig_exec(sigs, c, p) {
        return Some(n);
    }
    proof {
        lemma_find_class(classes@, c@);
    }
    match find_class_exec(classes, c) {
        Some(i) => match &classes[i].extends {
            Some(e) => if fuel > 0 {
                chain_arity_exec(classes, sigs, e.as_str(), p, fuel - 1)
            } else {
                None
            },
            None => None,
        },
        None => None,
    }
}

fn chain_rest_exec(
    classes: &Vec<ClassInfo>,
    sigs: &Vec<(String, String, usize, bool)>,
    c: &str,
    p: &str,
    fuel: usize,
) -> (res: Option<usize>)
    ensures
        res == chain_rest(classes@, sigs@, c@, p@, fuel as nat),
    decreases fuel,
{
    if let Some((n, true)) = lookup_sig_exec(sigs, c, p) {
        return Some(n);
    }
    proof {
        lemma_find_class(classes@, c@);
    }
    match find_class_exec(classes, c) {
        Some(i) => match &classes[i].extends {
            Some(e) => if fuel > 0 {
                chain_rest_exec(classes, sigs, e.as_str(), p, fuel - 1)
            } else {
                None
            },
            None => None,
        },
        None => None,
    }
}

/// Whether class `sub` extends `target`, directly or through its known
/// ancestors.
pub open spec fn extends_class(classes: Seq<ClassInfo>, sub: Seq<char>, target: Seq<char>, fuel: nat) -> bool
    decreases fuel,
{
    match find_class(classes, sub) {
        Some(i) => match classes[i].extends {
            Some(e) => e@ == target || (fuel > 0 && extends_class(classes, e@, target, (fuel - 1) as nat)),
            None => false,
        },
        None => false,
    }
}

fn extends_class_exec(classes: &Vec<ClassInfo>, sub: &str, target: &str, fuel: usize) -> (res: bool)
    ensures
        res == extends_class(classes@, sub@, target@, fuel as nat),
    decreases fuel,
{
    proof {
        lemma_find_class(classes@, sub@);
    }
    match find_class_exec(classes, sub) {
        Some(i) => match &classes[i].extends {
            Some(e) => {
                if str_eq(e.as_str(), target) {
                    true
                } else if fuel > 0 {
                    extends_class_exec(classes, e.as_str(), target, fuel - 1)
                } else {
                    false
                }
            },
            None => false,
        },
        None => false,
    }
}

/// The overriding subclasses of class `c` for `p`: each class of `ids`
/// (in order) other than `c` that extends `c` and answers `p` with a body
/// other than `fallback`, with its id and that body.
pub open spec fn overrides_spec(
    classes: Seq<ClassInfo>,
    ids: Seq<(String, u32)>,
    methods: Seq<(String, String, String)>,
    c: Seq<char>,
    p: Seq<char>,
    fallback: Seq<char>,
) -> Seq<(u32, Seq<char>)>
    decreases ids.len(),
{
    if ids.len() == 0 {
        Seq::empty()
    } else {
        let prev = overrides_spec(classes, ids.drop_last(), methods, c, p, fallback);
        let (name, id) = ids.last();
        if name@ != c && extends_class(classes, name@, c, classes.len()) {
            match resolve_method_spec(classes, methods, name@, p, classes.len()) {
                Some(f) => if f != fallback {
                    prev.push((id, f))
                } else {
                    prev
                },
                None => prev,
            }
        } else {
            prev
        }
    }
}

/// Every class of `ids` has a chain that ends.
pub open spec fn ids_chains_end(classes: Seq<ClassInfo>, ids: Seq<(String, u32)>) -> bool {
    forall|k: int| 0 <= k < ids.len() ==> name_chain_ends(classes, #[trigger] ids[k].0@, classes.len())
}

fn overrides_exec(
    classes: &Vec<ClassInfo>,
    ids: &Vec<(String, u32)>,
    methods: &Vec<(String, String, String)>,
    c: &str,
    p: &str,
    fallback: &str,
) -> (res: Vec<(u32, String)>)
    requires
        ids_chains_end(classes@, ids@),
    ensures
        entries_view(res@) == overrides_spec(classes@, ids@, methods@, c@, p@, fallback@),
{
    let mut out: Vec<(u32, String)> = Vec::new();
    let mut k: usize = 0;
    assert(entries_view(out@) =~= Seq::<(u32, Seq<char>)>::empty());
    while k < ids.len()
        invariant
            k <= ids@.len(),
            ids_chains_end(classes@, ids@),
            entries_view(out@) == overrides_spec(classes@, ids@.take(k as int), methods@, c@, p@, fallback@),
        decreases ids@.len() - k,
    {
        let ghost t = ids@.take(k + 1);
        assert(t.drop_last() =~= ids@.take(k as int));
        assert(t.last() == ids@[k as int]);
        let name = ids[k].0.as_str();
        let id = ids[k].1;
        if !str_eq(name, c) && extends_class_exec(classes, name, c, classes.len()) {
            assert(name_chain_ends(classes@, ids@[k as int].0@, classes@.len()));
            if let Some(f) = resolve_method(classes, methods, name, p) {
                if !str_eq(f.as_str(), fallback) {
                    let ghost before = out@;
                    out.push((id, f));
                    assert(entries_view(out@) =~= entries_view(before).push(entries_view(out@).last()));
                }
            }
        }
        k = k + 1;
    }
    assert(ids@.take(ids@.len() as int) =~= ids@);
    out
}

/// The class that first registers body `f` for method `p` in `methods`.
pub open spec fn owner_of(methods: Seq<(String, String, String)>, f: Seq<char>, p: Seq<char>) -> Option<Seq<char>>
    decreases methods.len(),
{
    if methods.len() == 0 {
        None
    } else if methods[0].1@ == p && methods[0].2@ == f {
        Some(methods[0].0@)
    } else {
        owner_of(methods.drop_first(), f, p)
    }
}

/// The parameter count of body `f` of `p`: that of the class registering
/// it, or 0 when unknown.
pub open spec fn body_arity(
    methods: Seq<(String, String, String)>,
    sigs: Seq<(String, String, usize, bool)>,
    f: Seq<char>,
    p: Seq<char>,
) -> usize {
    match owner_of(methods, f, p) {
        Some(c) => match lookup_sig(sigs, c, p) {
            Some((n, _)) => n,
            None => 0,
        },
        None => 0,
    }
}

/// The larger of two counts.
pub open spec fn max_usize(a: usize, b: usize) -> usize {
    if a >= b {
        a
    } else {
        b
    }
}

/// The largest parameter count of the tower entries' bodies.
pub open spec fn entries_arity(
    entries: Seq<(u32, Seq<char>)>,
    methods: Seq<(String, String, String)>,
    sigs: Seq<(String, String, usize, bool)>,
    p: Seq<char>,
) -> usize
    decreases entries.len(),
{
    if entries.len() == 0 {
        0
    } else {
        max_usize(entries_arity(entries.drop_last(), methods, sigs, p), body_arity(methods, sigs, entries.last().1, p))
    }
}

/// The parameter count of the first class registering body `f` of `p`
/// whose signature has a rest parameter.
pub open spec fn body_rest(
    methods: Seq<(String, String, String)>,
    sigs: Seq<(String, String, usize, bool)>,
    f: Seq<char>,
    p: Seq<char>,
) -> Option<usize>
    decreases methods.len(),
{
    if methods.len() == 0 {
        None
    } else if methods[0].1@ == p && methods[0].2@ == f {
        match lookup_sig(sigs, methods[0].0@, p) {
            Some((n, true)) => Some(n),
            _ => body_rest(methods.drop_first(), sigs, f, p),
        }
    } else {
        body_rest(methods.drop_first(), sigs, f, p)
    }
}

/// The rest parameter count of the first tower entry whose body has a rest
/// parameter.
pub open spec fn entries_rest(
    entries: Seq<(u32, Seq<char>)>,
    methods: Seq<(String, String, String)>,
    sigs: Seq<(String, String, usize, bool)>,
    p: Seq<char>,
) -> Option<usize>
    decreases entries.len(),
{
    if entries.len() == 0 {
        None
    } else {
        match body_rest(methods, sigs, entries[0].1, p) {
            Some(n) => Some(n),
            None => entries_rest(entries.drop_first(), methods, sigs, p),
        }
    }
}

/// The name of the first class of `ids` with id `id`.
pub open spec fn class_of_id(ids: Seq<(String, u32)>, id: u32) -> Option<Seq<char>>
    decreases ids.len(),
{
    if ids.len() == 0 {
        None
    } else if ids[0].1 == id {
        Some(ids[0].0@)
    } else {
        class_of_id(ids.drop_first(), id)
    }
}

/// The largest parameter count of `p` on the overriding classes.
pub open spec fn overrides_arity(
    overrides: Seq<(u32, Seq<char>)>,
    ids: Seq<(String, u32)>,
    sigs: Seq<(String, String, usize, bool)>,
    p: Seq<char>,
) -> usize
    decreases overrides.len(),
{
    if overrides.len() == 0 {
        0
    } else {
        let n = match class_of_id(ids, overrides.last().0) {
            Some(c) => match lookup_sig(sigs, c, p) {
                Some((n, _)) => n,
                None => 0,
            },
            None => 0,
        };
        max_usize(overrides_arity(overrides.drop_last(), ids, sigs, p), n)
    }
}

/// The argument layout of a method call with `nargs` arguments: with a
/// rest parameter (of `rest` parameters in all) the fixed ones padded with
/// `undefined` and the rest bundled into an array; else the arguments
/// padded with `undefined` up to `arity`.
pub open spec fn method_slots(rest: Option<usize>, arity: usize, nargs: nat) -> Seq<ArgSlot> {
    match rest {
        Some(n) => extern_call_slots_spec(Some(n), true, nargs),
        None => extern_call_slots_spec(Some(arity), false, nargs),
    }
}

/// Where a user-class method call goes.
#[derive(Debug)]
pub enum ClassMethodPlan {
    /// The receiver's class is not known here: an own-property probe, then
    /// a switch on its class id over `entries` (id, body), the runtime's
    /// by-name call for any other class.
    Dynamic { entries: Vec<(u32, String)>, slots: Vec<ArgSlot> },
    /// The receiver's class answers with `fallback`: with no overriding
    /// subclass, an own-property probe then the direct call; else a switch
    /// on its class id over `overrides`, `fallback` for any other class.
    Static { fallback: String, overrides: Vec<(u32, String)>, slots: Vec<ArgSlot> },
}

/// The mathematical value of a plan.
pub enum ClassMethodPlanV {
    Dynamic { entries: Seq<(u32, Seq<char>)>, slots: Seq<ArgSlot> },
    Static { fallback: Seq<char>, overrides: Seq<(u32, Seq<char>)>, slots: Seq<ArgSlot> },
}

impl View for ClassMethodPlan {
    type V = ClassMethodPlanV;

    open spec fn view(&self) -> ClassMethodPlanV {
        match self {
            ClassMethodPlan::Dynamic { entries, slots } => ClassMethodPlanV::Dynamic {
                entries: entries_view(entries@),
                slots: slots@,
            },
            ClassMethodPlan::Static { fallback, overrides, slots } => ClassMethodPlanV::Static {
                fallback: fallback@,
                overrides: entries_view(overrides@),
                slots: slots@,
            },
        }
    }
}

/// Where `recv.p(args)` (with `nargs` arguments) goes, `recv_class` being
/// the receiver's static class and `is_global` whether it is a global
/// object: through the dynamic tower when the receiver needs it and some
/// class answers `p`; else, when the receiver's class answers `p`, to that
/// body (with its overriding subclasses); else nowhere here. `ids` are the
/// classes' ids, `methods` the `(class, method, body)` table and `sigs` the
/// methods' `(class, method, parameter count, rest)` signatures.
pub open spec fn class_method_plan_spec(
    classes: Seq<ClassInfo>,
    ids: Seq<(String, u32)>,
    methods: Seq<(String, String, String)>,
    sigs: Seq<(String, String, usize, bool)>,
    recv_class: Option<Seq<char>>,
    is_global: bool,
    p: Seq<char>,
    nargs: nat,
) -> Option<ClassMethodPlanV> {
    let impls = implementors_spec(classes, ids, methods, p);
    if needs_dynamic_dispatch_spec(is_global, recv_class, classes) && impls.len() > 0 {
        Some(
            ClassMethodPlanV::Dynamic {
                entries: impls,
                slots: method_slots(entries_rest(impls, methods, sigs, p), entries_arity(impls, methods, sigs, p), nargs),
            },
        )
    } else {
        match recv_class {
            Some(c) => match resolve_method_spec(classes, methods, c, p, classes.len()) {
                Some(f) => {
                    let ovs = overrides_spec(classes, ids, methods, c, p, f);
                    let base = match chain_arity(classes, sigs, c, p, classes.len()) {
                        Some(n) => n,
                        None => 0,
                    };
                    Some(
                        ClassMethodPlanV::Static {
                            fallback: f,
                            overrides: ovs,
                            slots: method_slots(
                                chain_rest(classes, sigs, c, p, classes.len()),
                                max_usize(base, overrides_arity(ovs, ids, sigs, p)),
                                nargs,
                            ),
                        },
                    )
                },
                None => None,
            },
            None => None,
        }
    }
}

fn owner_of_exec(methods: &Vec<(String, String, String)>, f: &str, p: &str) -> (res: Option<String>)
    ensures
        match res {
            Some(c) => owner_of(methods@, f@, p@) == Some(c@),
            None => owner_of(methods@, f@, p@) is None,
        },
{
    let mut k: usize = 0;
    assert(methods@.skip(0) =~= methods@);
    while k < methods.len()
        invariant
            k <= methods@.len(),
            owner_of(methods@, f@, p@) == owner_of(methods@.skip(k as int), f@, p@),
        decreases methods@.len() - k,
    {
        assert(methods@.skip(k as int).drop_first() =~= methods@.skip(k + 1));
        assert(methods@.skip(k as int)[0] == methods@[k as int]);
        if str_eq(methods[k].1.as_str(), p) && str_eq(methods[k].2.as_str(), f) {
            return Some(methods[k].0.clone());
        }
        k = k + 1;
    }
    None
}

fn body_rest_exec(
    methods: &Vec<(String, String, String)>,
    sigs: &Vec<(String, String, usize, bool)>,
    f: &str,
    p: &str,
) -> (res: Option<usize>)
    ensures
        res == body_rest(methods@, sigs@, f@, p@),
{
    let mut k: usize = 0;
    assert(methods@.skip(0) =~= methods@);
    while k < methods.len()
        invariant
            k <= methods@.len(),
            body_rest(methods@, sigs@, f@, p@) == body_rest(methods@.skip(k as int), sigs@, f@, p@),
        decreases methods@.len() - k,
    {
        assert(methods@.skip(k as int).drop_first() =~= methods@.skip(k + 1));
        assert(methods@.skip(k as int)[0] == methods@[k as int]);
        if str_eq(methods[k].1.as_str(), p) && str_eq(methods[k].2.as_str(), f) {
            if let Some((n, true)) = lookup_sig_exec(sigs, methods[k].0.as_str(), p) {
                return Some(n);
            }
        }
        k = k + 1;
    }
    None
}

fn entries_arity_exec(
    entries: &Vec<(u32, String)>,
    methods: &Vec<(String, String, String)>,
    sigs: &Vec<(String, String, usize, bool)>,
    p: &str,
) -> (res: usize)
    ensures
        res == entries_arity(entries_view(entries@), methods@, sigs@, p@),
{
    let ghost ev = entries_view(entries@);
    let mut acc: usize = 0;
    let mut k: usize = 0;
    assert(ev.take(0) =~= Seq::<(u32, Seq<char>)>::empty());
    while k < entries.len()
        invariant
            k <= entries@.len(),
            ev == entries_view(entries@),
            acc == entries_arity(ev.take(k as int), methods@, sigs@, p@),
        decreases entries@.len() - k,
    {
        let n = match owner_of_exec(methods, entries[k].1.as_str(), p) {
            Some(c) => match lookup_sig_exec(sigs, c.as_str(), p) {
                Some((n, _)) => n,
                None => 0,
            },
            None => 0,
        };
        assert(ev.take(k + 1).drop_last() =~= ev.take(k as int));
        assert(ev.take(k + 1).last() == ev[k as int]);
        acc = if acc >= n { acc } else { n };
        k = k + 1;
    }
    assert(ev.take(entries@.len() as int) =~= ev);
    acc
}

fn entries_rest_exec(
    entries: &Vec<(u32, String)>,
    methods: &Vec<(String, String, String)>,
    sigs: &Vec<(String, String, usize, bool)>,
    p: &str,
) -> (res: Option<usize>)
    ensures
        res == entries_rest(entries_view(entries@), methods@, sigs@, p@),
{
    let ghost ev = entries_view(entries@);
    let mut k: usize = 0;
    assert(ev.skip(0) =~= ev);
    while k < entries.len()
        invariant
            k <= entries@.len(),
            ev == entries_view(entries@),
            entries_rest(ev, methods@, sigs@, p@) == entries_rest(ev.skip(k as int), methods@, sigs@, p@),
        decreases entries@.len() - k,
    {
        assert(ev.skip(k as int).drop_first() =~= ev.skip(k + 1));
        assert(ev.skip(k as int)[0] == ev[k as int]);
        if let Some(n) = body_rest_exec(methods, sigs, entries[k].1.as_str(), p) {
            return Some(n);
        }
        k = k + 1;
    }
    None
}

fn class_of_id_exec(ids: &Vec<(String, u32)>, id: u32) -> (res: Option<String>)
    ensures
        match res {
            Some(c) => class_of_id(ids@, id) == Some(c@),
            None => class_of_id(ids@, id) is None,
        },
{
    let mut k: usize = 0;
    assert(ids@.skip(0) =~= ids@);
    while k < ids.len()
        invariant
            k <= ids@.len(),
            class_of_id(ids@, id) == class_of_id(ids@.skip(k as int), id),
        decreases ids@.len() - k,
    {
        assert(ids@.skip(k as int).drop_first() =~= ids@.skip(k + 1));
        assert(ids@.skip(k as int)[0] == ids@[k as int]);
        if ids[k].1 == id {
            return Some(ids[k].0.clone());
        }
        k = k + 1;
    }
    None
}

fn overrides_arity_exec(
    overrides: &Vec<(u32, String)>,
    ids: &Vec<(String, u32)>,
    sigs: &Vec<(String, String, usize, bool)>,
    p: &str,
) -> (res: usize)
    ensures
        res == overrides_arity(entries_view(overrides@), ids@, sigs@, p@),
{
    let ghost ev = entries_view(overrides@);
    let mut acc: usize = 0;
    let mut k: usize = 0;
    assert(ev.take(0) =~= Seq::<(u32, Seq<char>)>::empty());
    while k < overrides.len()
        invariant
            k <= overrides@.len(),
            ev == entries_view(overrides@),
            acc == overrides_arity(ev.take(k as int), ids@, sigs@, p@),
        decreases overrides@.len() - k,
    {
        let n = match class_of_id_exec(ids, overrides[k].0) {
            Some(c) => match lookup_sig_exec(sigs, c.as_str(), p) {
                Some((n, _)) => n,
                None => 0,
            },
            None => 0,
        };
        assert(ev.take(k + 1).drop_last() =~= ev.take(k as int));
        assert(ev.take(k + 1).last() == ev[k as int]);
        acc = if acc >= n { acc } else { n };
        k = k + 1;
    }
    assert(ev.take(overrides@.len() as int) =~= ev);
    acc
}

fn method_slots_exec(rest: Option<usize>, arity: usize, nargs: usize) -> (res: Vec<ArgSlot>)
    ensures
        res@ == method_slots(rest, arity, nargs as nat),
{
    match rest {
        Some(n) => extern_call_slots(Some(n), true, nargs),
        None => extern_call_slots(Some(arity), false, nargs),
    }
}

/// Where `recv.p(args)` goes (see `class_method_plan_spec`).
pub fn class_method_plan(
    classes: &Vec<ClassInfo>,
    ids: &Vec<(String, u32)>,
    methods: &Vec<(String, String, String)>,
    sigs: &Vec<(String, String, usize, bool)>,
    recv_class: Option<&str>,
    is_global: bool,
    p: &str,
    nargs: usize,
) -> (res: Option<ClassMethodPlan>)
    requires
        ids_chains_end(classes@, ids@),
        recv_class matches Some(c) ==> name_chain_ends(classes@, c@, classes@.len()),
    ensures
        match res {
            Some(plan) => class_method_plan_spec(
                classes@,
                ids@,
                methods@,
                sigs@,
                opt_view(recv_class),
                is_global,
                p@,
                nargs as nat,
            ) == Some(plan@),
            None => class_method_plan_spec(
                classes@,
                ids@,
                methods@,
                sigs@,
                opt_view(recv_class),
                is_global,
                p@,
                nargs as nat,
            ) is None,
        },
{
    let dynamic = needs_dynamic_dispatch(is_global, recv_class, classes);
    if dynamic {
        let impls = dispatch_implementors(classes, ids, methods, p);
        if impls.len() > 0 {
            let rest = entries_rest_exec(&impls, methods, sigs, p);
            let arity = entries_arity_exec(&impls, methods, sigs, p);
            let slots = method_slots_exec(rest, arity, nargs);
            return Some(ClassMethodPlan::Dynamic { entries: impls, slots });
        }
    }
    let c = match recv_class {
        Some(c) => c,
        None => return None,
    };
    let f = match resolve_method(classes, methods, c, p) {
        Some(f) => f,
        None => return None,
    };
    let ovs = overrides_exec(classes, ids, methods, c, p, f.as_str());
    let base = match chain_arity_exec(classes, sigs, c, p, classes.len()) {
        Some(n) => n,
        None => 0,
    };
    let oa = overrides_arity_exec(&ovs, ids, sigs, p);
    let arity = if base >= oa { base } else { oa };
    let rest = chain_rest_exec(classes, sigs, c, p, classes.len());
    let slots = method_slots_exec(rest, arity, nargs);
    Some(ClassMethodPlan::Static { fallback: f, overrides: ovs, slots })
}

/// The name of case block `i` of a tower.
pub open spec fn case_name(prefix: Seq<char>, i: nat) -> Seq<char> {
    prefix + ".case"@ + decimal(i)
}

/// The name of test block `i` of a tower.
pub open spec fn test_name(prefix: Seq<char>, i: nat) -> Seq<char> {
    prefix + ".test"@ + decimal(i)
}

/// Where test `i` of a `k`-case tower whose blocks start at `n` goes when
/// the class id differs: the next test block, or the default block after
/// the last test.
pub open spec fn test_else(i: int, n: int, k: int) -> usize {
    if i + 1 < k {
        (n + k + 2 + i) as usize
    } else {
        (n + k) as usize
    }
}

/// The instructions a tower appends to the block that was current: the
/// receiver unboxed into `r`, its class id into `r + 1`, the first test.
pub open spec fn tower_head(recv: OperandV, id0: u32, r: int, n: int, k: int) -> Seq<InstV> {
    seq![
        InstV::UnboxToI64 { dest: r as u64, val: recv },
        InstV::Call {
            dest: Some((r + 1) as u64),
            ret: Ty::I32,
            callee: "js_object_get_class_id"@,
            args: seq![(Ty::I64, OperandV::Reg(r as u64))],
        },
        InstV::IntEq { dest: (r + 2) as u64, ty: Ty::I32, lhs: OperandV::Reg((r + 1) as u64), rhs: OperandV::Int(id0 as u64) },
        InstV::CondBr { cond: OperandV::Reg((r + 2) as u64), if_true: n as usize, if_false: test_else(0, n, k) },
    ]
}

/// Case block `i`: the call of entry `i`'s body into `r + 2 + k + i`, then
/// the branch to the merge block.
pub open spec fn case_block(prefix: Seq<char>, entries: Seq<(u32, Seq<char>)>, i: int, args: Seq<(Ty, OperandV)>, r: int, n: int) -> BlockV {
    let k = entries.len();
    BlockV {
        name: case_name(prefix, i as nat),
        insts: seq![
            InstV::Call { dest: Some((r + 2 + k + i) as u64), ret: Ty::Double, callee: entries[i].1, args },
            InstV::Br { target: (n + k + 1) as usize },
        ],
    }
}

/// Test block `i` (from 1): the comparison with entry `i`'s id into
/// `r + 2 + i` and the branch.
pub open spec fn test_block(prefix: Seq<char>, entries: Seq<(u32, Seq<char>)>, i: int, r: int, n: int) -> BlockV {
    let k = entries.len() as int;
    BlockV {
        name: test_name(prefix, i as nat),
        insts: seq![
            InstV::IntEq {
                dest: (r + 2 + i) as u64,
                ty: Ty::I32,
                lhs: OperandV::Reg((r + 1) as u64),
                rhs: OperandV::Int(entries[i].0 as u64),
            },
            InstV::CondBr { cond: OperandV::Reg((r + 2 + i) as u64), if_true: (n + i) as usize, if_false: test_else(i, n, k) },
        ],
    }
}

/// The function state after opening a tower over `entries` from `pre`:
/// the head in the current block; the case blocks, the (empty) default and
/// merge blocks and the test blocks appended in that order; the default
/// block current.
pub open spec fn tower_open(pre: FnBuilderV, prefix: Seq<char>, recv: OperandV, entries: Seq<(u32, Seq<char>)>, args: Seq<(Ty, OperandV)>) -> FnBuilderV {
    let n = pre.blocks.len() as int;
    let k = entries.len() as int;
    let r = pre.next_reg;
    let h = (FnBuilderV { next_reg: r + 2 + 2 * k, ..pre }).append_cur(tower_head(recv, entries[0].0, r, n, k));
    FnBuilderV {
        blocks: h.blocks + Seq::new(k as nat, |i: int| case_block(prefix, entries, i, args, r, n)) + seq![
            BlockV { name: prefix + ".default"@, insts: Seq::empty() },
            BlockV { name: prefix + ".merge"@, insts: Seq::empty() },
        ] + Seq::new((k - 1) as nat, |i: int| test_block(prefix, entries, i + 1, r, n)),
        current: n + k,
        ..h
    }
}

fn copy_args(a: &Vec<Arg>) -> (res: Vec<Arg>)
    ensures
        args_view(res@) == args_view(a@),
{
    let mut out: Vec<Arg> = Vec::new();
    let mut k: usize = 0;
    while k < a.len()
        invariant
            k <= a@.len(),
            args_view(out@) =~= args_view(a@).take(k as int),
        decreases a@.len() - k,
    {
        out.push((a[k].0, copy_operand(&a[k].1)));
        assert(args_view(a@).take(k + 1) =~= args_view(a@).take(k as int).push(args_view(a@)[k as int]));
        k = k + 1;
    }
    assert(args_view(a@).take(a@.len() as int) =~= args_view(a@));
    out
}

fn block_name(prefix: &str, part: &str, i: Option<usize>) -> (res: String)
    ensures
        res@ == prefix@ + part@ + match i {
            Some(v) => decimal(v as nat),
            None => Seq::<char>::empty(),
        },
{
    let mut s = String::from_str(prefix);
    s.append(part);
    match i {
        Some(v) => push_decimal(&mut s, v as u64),
        None => {},
    }
    proof {
        if i is None {
            assert(prefix@ + part@ + Seq::<char>::empty() =~= prefix@ + part@);
        }
    }
    s
}

/// Opens a class-id tower over `entries` (at least one): see `tower_open`.
/// Returns the index of the first case block.
fn emit_tower_open(b: &mut FnBuilder, prefix: &str, recv: &Operand, entries: &Vec<(u32, String)>, args: &Vec<Arg>) -> (n: usize)
    requires
        old(b)@.wf(),
        entries@.len() >= 1,
        old(b)@.next_reg + 2 + 2 * entries@.len() <= u64::MAX,
        old(b)@.blocks.len() + 2 * entries@.len() + 2 <= usize::MAX,
    ensures
        n == old(b)@.blocks.len(),
        final(b)@ == tower_open(old(b)@, prefix@, recv@, entries_view(entries@), args_view(args@)),
        final(b)@.wf(),
{
    let ghost pre = b@;
    let ghost ev = entries_view(entries@);
    let ghost av = args_view(args@);
    let n = b.num_blocks();
    let k = entries.len();
    let r = b.peek_reg();
    let else0: usize = if 1 < k { n + k + 2 } else { n + k };
    let cid_args = vec![(Ty::I64, Operand::Reg(r))];
    assert(args_view(cid_args@) =~= seq![(Ty::I64, OperandV::Reg(r))]);
    let head = vec![
        Inst::UnboxToI64 { dest: r, val: copy_operand(recv) },
        Inst::Call {
            dest: Some(r + 1),
            ret: Ty::I32,
            callee: String::from_str("js_object_get_class_id"),
            args: cid_args,
        },
        Inst::IntEq { dest: r + 2, ty: Ty::I32, lhs: Operand::Reg(r + 1), rhs: Operand::Int(entries[0].0 as u64) },
        Inst::CondBr { cond: Operand::Reg(r + 2), if_true: n, if_false: else0 },
    ];
    assert(insts_view(head@) =~= tower_head(recv@, ev[0].0, r as int, n as int, k as int));
    b.push_all(head);
    b.reserve_regs(2 + 2 * (k as u64));
    let ghost h = (FnBuilderV { next_reg: r + 2 + 2 * k, ..pre }).append_cur(tower_head(recv@, ev[0].0, r as int, n as int, k as int));
    assert(b@ == h);
    let mut i: usize = 0;
    while i < k
        invariant
            i <= k,
            k == entries@.len(),
            ev == entries_view(entries@),
            av == args_view(args@),
            n == pre.blocks.len(),
            r == pre.next_reg,
            r + 2 + 2 * k <= u64::MAX,
            n + 2 * k + 2 <= usize::MAX,
            b@ == (FnBuilderV {
                blocks: h.blocks + Seq::new(i as nat, |j: int| case_block(prefix@, ev, j, av, r as int, n as int)),
                ..h
            }),
            b@.wf(),
        decreases k - i,
    {
        let name = block_name(prefix, ".case", Some(i));
        let insts = vec![
            Inst::Call { dest: Some(r + 2 + (k as u64) + (i as u64)), ret: Ty::Double, callee: entries[i].1.clone(), args: copy_args(args) },
            Inst::Br { target: n + k + 1 },
        ];
        assert(insts_view(insts@) =~= case_block(prefix@, ev, i as int, av, r as int, n as int).insts);
        b.push_block(name, insts);
        assert(b@.blocks =~= h.blocks + Seq::new((i + 1) as nat, |j: int| case_block(prefix@, ev, j, av, r as int, n as int)));
        i = i + 1;
    }
    let ghost cases = Seq::new(k as nat, |j: int| case_block(prefix@, ev, j, av, r as int, n as int));
    let e1: Vec<Inst> = Vec::new();
    let e2: Vec<Inst> = Vec::new();
    assert(insts_view(e1@) =~= Seq::<InstV>::empty());
    assert(insts_view(e2@) =~= Seq::<InstV>::empty());
    b.push_block(block_name(prefix, ".default", None), e1);
    b.push_block(block_name(prefix, ".merge", None), e2);
    let ghost dm = seq![
        BlockV { name: prefix@ + ".default"@, insts: Seq::empty() },
        BlockV { name: prefix@ + ".merge"@, insts: Seq::empty() },
    ];
    assert(b@.blocks =~= h.blocks + cases + dm);
    let mut j: usize = 1;
    while j < k
        invariant
            1 <= j <= k,
            k == entries@.len(),
            ev == entries_view(entries@),
            n == pre.blocks.len(),
            r == pre.next_reg,
            r + 2 + 2 * k <= u64::MAX,
            n + 2 * k + 2 <= usize::MAX,
            b@ == (FnBuilderV {
                blocks: h.blocks + cases + dm + Seq::new((j - 1) as nat, |t: int| test_block(prefix@, ev, t + 1, r as int, n as int)),
                ..h
            }),
            b@.wf(),
        decreases k - j,
    {
        let name = block_name(prefix, ".test", Some(j));
        let els: usize = if j + 1 < k { n + k + 2 + j } else { n + k };
        let insts = vec![
            Inst::IntEq { dest: r + 2 + (j as u64), ty: Ty::I32, lhs: Operand::Reg(r + 1), rhs: Operand::Int(entries[j].0 as u64) },
            Inst::CondBr { cond: Operand::Reg(r + 2 + (j as u64)), if_true: n + j, if_false: els },
        ];
        assert(insts_view(insts@) =~= test_block(prefix@, ev, j as int, r as int, n as int).insts);
        b.push_block(name, insts);
        assert(b@.blocks =~= h.blocks + cases + dm + Seq::new(j as nat, |t: int| test_block(prefix@, ev, t + 1, r as int, n as int)));
        j = j + 1;
    }
    b.switch_to(n + k);
    assert(b@ == tower_open(pre, prefix@, recv@, ev, av));
    n
}

/// The incoming values of a tower's merge phi from its `k` case blocks.
pub open spec fn tower_incoming(k: nat, r: int, n: int) -> Seq<(OperandV, usize)> {
    Seq::new(k, |i: int| (OperandV::Reg((r + 2 + k + i) as u64), (n + i) as usize))
}

/// The function state after closing a `k`-case tower (opened at register
/// `r` with its first case block at `n`) from `st`: the merge block current,
/// holding the phi over the case results and the default value `dv` from
/// block `dblk`.
pub open spec fn tower_close(st: FnBuilderV, k: nat, r: int, n: int, dv: OperandV, dblk: usize) -> FnBuilderV {
    (FnBuilderV { current: n + k + 1, next_reg: st.next_reg + 1, ..st }).append_cur(
        seq![InstV::Phi { dest: st.next_reg as u64, ty: Ty::Double, incoming: tower_incoming(k, r, n) + seq![(dv, dblk)] }],
    )
}

fn emit_tower_merge(b: &mut FnBuilder, n: usize, k: usize, r: u64, dv: Operand, dblk: usize) -> (phi: u64)
    requires
        n + k + 1 < old(b)@.blocks.len(),
        n + k + 2 <= usize::MAX,
        old(b)@.next_reg < u64::MAX,
        r + 2 + 2 * k <= u64::MAX,
    ensures
        phi == old(b)@.next_reg,
        final(b)@ == tower_close(old(b)@, k as nat, r as int, n as int, dv@, dblk),
        final(b)@.wf(),
{
    let ghost dvv = dv@;
    let mut incoming: Vec<(Operand, usize)> = Vec::new();
    let mut i: usize = 0;
    while i < k
        invariant
            i <= k,
            r + 2 + 2 * k <= u64::MAX,
            n + k + 1 < usize::MAX,
            incoming@.map_values(|p: (Operand, usize)| (p.0@, p.1)) =~= tower_incoming(k as nat, r as int, n as int).take(i as int),
        decreases k - i,
    {
        incoming.push((Operand::Reg(r + 2 + (k as u64) + (i as u64)), n + i));
        assert(tower_incoming(k as nat, r as int, n as int).take(i + 1) =~= tower_incoming(k as nat, r as int, n as int).take(
            i as int,
        ).push((OperandV::Reg((r + 2 + k + i) as u64), (n + i) as usize)));
        i = i + 1;
    }
    assert(tower_incoming(k as nat, r as int, n as int).take(k as int) =~= tower_incoming(k as nat, r as int, n as int));
    let ghost before = incoming@;
    incoming.push((dv, dblk));
    assert(incoming@.map_values(|p: (Operand, usize)| (p.0@, p.1)) =~= before.map_values(|p: (Operand, usize)| (p.0@, p.1)).push((dvv, dblk)));
    assert(incoming@.map_values(|p: (Operand, usize)| (p.0@, p.1)) =~= tower_incoming(k as nat, r as int, n as int) + seq![(dvv, dblk)]);
    b.switch_to(n + k + 1);
    let phi = b.fresh_reg();
    b.push(Inst::Phi { dest: phi, ty: Ty::Double, incoming });
    phi
}

/// The arguments of a method call as `double`s.
pub open spec fn double_args(full: Seq<OperandV>) -> Seq<(Ty, OperandV)> {
    full.map_values(|o: OperandV| (Ty::Double, o))
}

/// The function state and the full argument list (the receiver, then the
/// laid-out arguments) after laying out the arguments `vals` per `slots`
/// from `pre`.
pub open spec fn method_args_result(pre: FnBuilderV, slots: Seq<ArgSlot>, recv: OperandV, vals: Seq<OperandV>) -> (
    FnBuilderV,
    Seq<OperandV>,
) {
    let (insts, ops, next) = slots_result(slots, vals, pre.next_reg);
    ((FnBuilderV { next_reg: next, ..pre }).append_cur(insts), seq![recv] + ops)
}

fn emit_method_args(b: &mut FnBuilder, slots: &Vec<ArgSlot>, recv: &Operand, vals: &Vec<Operand>) -> (full: Vec<Operand>)
    requires
        old(b)@.wf(),
        slots_in_range(slots@, vals@.len()),
        vals@.len() <= u32::MAX,
        old(b)@.next_reg + slots@.len() * (vals@.len() + 3) <= u64::MAX,
    ensures
        ({
            let (post, fv) = method_args_result(old(b)@, slots@, recv@, operands_view(vals@));
            &&& final(b)@ == post
            &&& operands_view(full@) == fv
        }),
        final(b)@.wf(),
{
    let ops = emit_slots(b, slots, vals);
    let mut full: Vec<Operand> = Vec::new();
    full.push(copy_operand(recv));
    let mut i: usize = 0;
    while i < ops.len()
        invariant
            i <= ops@.len(),
            operands_view(full@) =~= seq![recv@] + operands_view(ops@).take(i as int),
        decreases ops@.len() - i,
    {
        let ghost before = full@;
        full.push(copy_operand(&ops[i]));
        assert(operands_view(full@) =~= operands_view(before).push(operands_view(ops@)[i as int]));
        assert(operands_view(ops@).take(i + 1) =~= operands_view(ops@).take(i as int).push(operands_view(ops@)[i as int]));
        i = i + 1;
    }
    assert(operands_view(ops@).take(ops@.len() as int) =~= operands_view(ops@));
    full
}

/// The function state and value of a switch on the receiver's class id over
/// the overriding classes `ovs` (tower `vdispatch`), each case calling its
/// override with `args` and the default calling `fallback`, from `pre`.
pub open spec fn static_tower_result(
    pre: FnBuilderV,
    recv: OperandV,
    ovs: Seq<(u32, Seq<char>)>,
    fallback: Seq<char>,
    args: Seq<(Ty, OperandV)>,
) -> (FnBuilderV, OperandV) {
    let n = pre.blocks.len() as int;
    let k = ovs.len();
    let r = pre.next_reg;
    let t = tower_open(pre, "vdispatch"@, recv, ovs, args);
    let q = t.next_reg;
    let d = (FnBuilderV { next_reg: q + 1, ..t }).append_cur(
        seq![
            InstV::Call { dest: Some(q as u64), ret: Ty::Double, callee: fallback, args },
            InstV::Br { target: (n + k + 1) as usize },
        ],
    );
    (tower_close(d, k, r, n, OperandV::Reg(q as u64), (n + k) as usize), OperandV::Reg((q + 1) as u64))
}

fn emit_static_tower(b: &mut FnBuilder, recv: &Operand, ovs: &Vec<(u32, String)>, fallback: &str, args: &Vec<Arg>) -> (res: Operand)
    requires
        old(b)@.wf(),
        ovs@.len() >= 1,
        old(b)@.next_reg + 4 + 2 * ovs@.len() <= u64::MAX,
        old(b)@.blocks.len() + 2 * ovs@.len() + 2 <= usize::MAX,
    ensures
        ({
            let (post, v) = static_tower_result(old(b)@, recv@, entries_view(ovs@), fallback@, args_view(args@));
            &&& final(b)@ == post
            &&& res@ == v
        }),
        final(b)@.wf(),
{
    let ghost pre = b@;
    let r = b.peek_reg();
    let k = ovs.len();
    let n = emit_tower_open(b, "vdispatch", recv, ovs, args);
    let ghost t = b@;
    let q = b.call(Ty::Double, fallback, copy_args(args));
    b.push(Inst::Br { target: n + k + 1 });
    proof {
        let c = InstV::Call { dest: Some(q), ret: Ty::Double, callee: fallback@, args: args_view(args@) };
        lemma_append_cur_twice(FnBuilderV { next_reg: q + 1, ..t }, seq![c], seq![InstV::Br { target: (n + k + 1) as usize }]);
        assert(seq![c] + seq![InstV::Br { target: (n + k + 1) as usize }] =~= seq![c, InstV::Br { target: (n + k + 1) as usize }]);
    }
    let phi = emit_tower_merge(b, n, k, r, Operand::Reg(q), n + k);
    Operand::Reg(phi)
}

/// The user arguments forwarded to the runtime's by-name call when no
/// case of the dynamic tower matches: those after the receiver in `full`,
/// at most `nu` (the number the caller passed).
pub open spec fn fallback_vals(full: Seq<OperandV>, nu: nat) -> Seq<OperandV> {
    let avail = (full.len() - 1) as nat;
    full.skip(1).take(if nu < avail { nu as int } else { avail as int })
}

fn fallback_vals_exec(full: &Vec<Operand>, nu: usize) -> (res: Vec<Operand>)
    requires
        full@.len() >= 1,
    ensures
        operands_view(res@) == fallback_vals(operands_view(full@), nu as nat),
        res@.len() <= nu,
{
    let ghost fv = operands_view(full@);
    let avail = full.len() - 1;
    let m = if nu < avail { nu } else { avail };
    let mut out: Vec<Operand> = Vec::new();
    let mut i: usize = 0;
    while i < m
        invariant
            i <= m,
            m <= avail,
            avail + 1 == full@.len(),
            fv == operands_view(full@),
            operands_view(out@) =~= fv.skip(1).take(i as int),
        decreases m - i,
    {
        let ghost before = out@;
        out.push(copy_operand(&full[i + 1]));
        assert(operands_view(out@) =~= operands_view(before).push(fv[i + 1]));
        assert(fv.skip(1).take(i + 1) =~= fv.skip(1).take(i as int).push(fv[i + 1]));
        i = i + 1;
    }
    out
}

/// The three blocks of the dynamic tower's own-property probe.
pub open spec fn dyn_probe_names() -> (Seq<char>, Seq<char>, Seq<char>) {
    ("idisp.override"@, "idisp.dispatch"@, "idisp.outer_merge"@)
}

/// The function state and value of a call through the dynamic tower, from
/// `pre`: `full` the receiver and laid-out arguments, `p` the method (of
/// byte length `name_len`), `nu` the number of arguments the caller
/// passed. The property interned and probed on the receiver (blocks
/// `idisp.*`); a stored override is called with the arguments and `this`
/// bound; else a switch on the class id over `entries` (blocks
/// `idispatch.*`), whose default calls the runtime's
/// `js_native_call_method` by name with the passed arguments spilled to a
/// buffer; the two results joined in the outer merge block.
pub open spec fn dynamic_result(
    pre: FnBuilderV,
    recv: OperandV,
    entries: Seq<(u32, Seq<char>)>,
    full: Seq<OperandV>,
    p: Seq<char>,
    name_len: u64,
    nu: nat,
) -> (FnBuilderV, OperandV) {
    let n0 = pre.blocks.len() as int;
    let r0 = pre.next_reg;
    let key = intern_index(pre.strings, p);
    let probed = probe_result_named(
        FnBuilderV { strings: intern_strings(pre.strings, p), ..pre },
        recv,
        key,
        name_len,
        dyn_probe_names().0,
        dyn_probe_names().1,
        dyn_probe_names().2,
    );
    let ovr = override_path_result(FnBuilderV { current: n0, ..probed }, full, r0, (n0 + 2) as usize);
    let v_ovr = after_spill_reg(r0, user_arg_count(full)) + 1;
    let disp = FnBuilderV { current: n0 + 1, ..ovr };
    let n = n0 + 3;
    let k = entries.len();
    let rt = disp.next_reg;
    let t = tower_open(disp, "idispatch"@, recv, entries, double_args(full));
    let (bs, ptr) = sized_buffer_result(t, fallback_vals(full, nu), nu);
    let q = bs.next_reg;
    let d = (FnBuilderV { next_reg: q + 1, ..bs }).append_cur(
        seq![
            InstV::Call {
                dest: Some(q as u64),
                ret: Ty::Double,
                callee: "js_native_call_method"@,
                args: seq![
                    (Ty::Double, recv),
                    (Ty::Ptr, OperandV::StrBytes(key as usize)),
                    (Ty::I64, OperandV::Int(name_len)),
                    (Ty::Ptr, ptr),
                    (Ty::I64, OperandV::Int(nu as u64)),
                ],
            },
            InstV::Br { target: (n + k + 1) as usize },
        ],
    );
    let vd = d.next_reg;
    let m = tower_close(d, k, rt, n, OperandV::Reg(q as u64), (n + k) as usize).append_cur(
        seq![InstV::Br { target: (n0 + 2) as usize }],
    );
    (
        (FnBuilderV { current: n0 + 2, next_reg: m.next_reg + 1, ..m }).append_cur(
            seq![
                InstV::Phi {
                    dest: m.next_reg as u64,
                    ty: Ty::Double,
                    incoming: seq![(OperandV::Reg(v_ovr as u64), n0 as usize), (OperandV::Reg(vd as u64), (n + k + 1) as usize)],
                },
            ],
        ),
        OperandV::Reg(m.next_reg as u64),
    )
}

fn copy_operands(v: &Vec<Operand>) -> (res: Vec<Operand>)
    ensures
        operands_view(res@) == operands_view(v@),
{
    let mut out: Vec<Operand> = Vec::new();
    let mut i: usize = 0;
    while i < v.len()
        invariant
            i <= v@.len(),
            operands_view(out@) =~= operands_view(v@).take(i as int),
        decreases v@.len() - i,
    {
        let ghost before = out@;
        out.push(copy_operand(&v[i]));
        assert(operands_view(out@) =~= operands_view(before).push(operands_view(v@)[i as int]));
        assert(operands_view(v@).take(i + 1) =~= operands_view(v@).take(i as int).push(operands_view(v@)[i as int]));
        i = i + 1;
    }
    assert(operands_view(v@).take(v@.len() as int) =~= operands_view(v@));
    out
}

#[verifier::rlimit(50)]
fn emit_dynamic(b: &mut FnBuilder, recv: &Operand, entries: &Vec<(u32, String)>, full: &Vec<Operand>, property: &str, nu: usize) -> (res: Operand)
    requires
        old(b)@.wf(),
        entries@.len() >= 1,
        full@.len() >= 1,
        old(b)@.next_reg + full@.len() + 4 * entries@.len() + nu + 32 <= u64::MAX,
        old(b)@.blocks.len() + 2 * entries@.len() + 8 <= usize::MAX,
    ensures
        ({
            let (post, v) = dynamic_result(
                old(b)@,
                recv@,
                entries_view(entries@),
                operands_view(full@),
                property@,
                property.len() as u64,
                nu as nat,
            );
            &&& final(b)@ == post
            &&& res@ == v
        }),
        final(b)@.wf(),
{
    let ghost pre = b@;
    let ghost fv = operands_view(full@);
    let key = b.intern(property);
    assert(b@ == (FnBuilderV { strings: intern_strings(pre.strings, property@), ..pre }));
    assert(key == intern_index(pre.strings, property@));
    let name_len = property.len() as u64;
    let (own, ovr_idx, disp_idx, outer_idx) = emit_probe(
        b,
        recv,
        key,
        name_len,
        ("idisp.override", "idisp.dispatch", "idisp.outer_merge"),
    );
    let ghost probed = b@;
    b.switch_to(ovr_idx);
    let v_ovr = emit_override_path(b, own, full, outer_idx);
    let ghost ovr = b@;
    b.switch_to(disp_idx);
    let ghost disp = b@;
    let args = as_double_args(copy_operands(full));
    let rt = b.peek_reg();
    let k = entries.len();
    let n = emit_tower_open(b, "idispatch", recv, entries, &args);
    let ghost tt = b@;
    let fb = fallback_vals_exec(full, nu);
    let ptr = emit_sized_args_buffer(b, &fb, nu as u64);
    let ghost bs = b@;
    let ghost pv = ptr@;
    let cargs = vec![
        (Ty::Double, copy_operand(recv)),
        (Ty::Ptr, Operand::StrBytes(key)),
        (Ty::I64, Operand::Int(name_len)),
        (Ty::Ptr, ptr),
        (Ty::I64, Operand::Int(nu as u64)),
    ];
    let ghost cav = args_view(cargs@);
    assert(cav =~= seq![
        (Ty::Double, recv@),
        (Ty::Ptr, OperandV::StrBytes(key)),
        (Ty::I64, OperandV::Int(name_len)),
        (Ty::Ptr, pv),
        (Ty::I64, OperandV::Int(nu as u64)),
    ]);
    let q = b.call(Ty::Double, "js_native_call_method", cargs);
    b.push(Inst::Br { target: n + k + 1 });
    proof {
        let c = InstV::Call { dest: Some(q), ret: Ty::Double, callee: "js_native_call_method"@, args: cav };
        lemma_append_cur_twice(FnBuilderV { next_reg: q + 1, ..bs }, seq![c], seq![InstV::Br { target: (n + k + 1) as usize }]);
        assert(seq![c] + seq![InstV::Br { target: (n + k + 1) as usize }] =~= seq![c, InstV::Br { target: (n + k + 1) as usize }]);
    }
    let vd = emit_tower_merge(b, n, k, rt, Operand::Reg(q), n + k);
    b.push(Inst::Br { target: outer_idx });
    b.switch_to(outer_idx);
    let phi = b.fresh_reg();
    let incoming = vec![(Operand::Reg(v_ovr), ovr_idx), (Operand::Reg(vd), n + k + 1)];
    assert(incoming@.map_values(|p: (Operand, usize)| (p.0@, p.1)) =~= seq![
        (OperandV::Reg(v_ovr), ovr_idx),
        (OperandV::Reg(vd), (n + k + 1) as usize),
    ]);
    b.push(Inst::Phi { dest: phi, ty: Ty::Double, incoming });
    Operand::Reg(phi)
}

/// The function state and value of `recv.p(args)` along `plan`, from
/// `pre` (`vals` the lowered arguments, `name_len` the byte length of `p`):
/// the arguments laid out per the plan's slots, the receiver first; then
/// for the dynamic tower, `dynamic_result`; for a class whose method no
/// subclass overrides, the own-property probe before the direct call of
/// the body (`override_check_result`); else the `vdispatch` switch on the
/// class id (`static_tower_result`).
pub open spec fn class_method_call_result(
    pre: FnBuilderV,
    plan: ClassMethodPlanV,
    recv: OperandV,
    vals: Seq<OperandV>,
    p: Seq<char>,
    name_len: u64,
) -> (FnBuilderV, OperandV) {
    match plan {
        ClassMethodPlanV::Dynamic { entries, slots } => {
            let (s_a, full) = method_args_result(pre, slots, recv, vals);
            dynamic_result(s_a, recv, entries, full, p, name_len, vals.len())
        },
        ClassMethodPlanV::Static { fallback, overrides, slots } => {
            let (s_a, full) = method_args_result(pre, slots, recv, vals);
            if overrides.len() == 0 {
                (
                    override_check_result(s_a, recv, p, name_len, fallback, double_args(full), full),
                    OperandV::Reg((after_spill_reg(s_a.next_reg, user_arg_count(full)) + 4) as u64),
                )
            } else {
                static_tower_result(s_a, recv, overrides, fallback, double_args(full))
            }
        },
    }
}

/// The slots of a plan.
pub open spec fn plan_slots(plan: ClassMethodPlanV) -> Seq<ArgSlot> {
    match plan {
        ClassMethodPlanV::Dynamic { slots, .. } => slots,
        ClassMethodPlanV::Static { slots, .. } => slots,
    }
}

/// The number of cases of a plan's tower.
pub open spec fn plan_cases(plan: ClassMethodPlanV) -> nat {
    match plan {
        ClassMethodPlanV::Dynamic { entries, .. } => entries.len(),
        ClassMethodPlanV::Static { overrides, .. } => overrides.len(),
    }
}

/// The registers a call along `plan` with `nargs` arguments may use at most.
pub open spec fn plan_regs(plan: ClassMethodPlanV, nargs: nat) -> nat {
    let s = plan_slots(plan).len();
    s * (nargs + 3) + s + 4 * plan_cases(plan) + nargs + 40
}

proof fn lemma_method_slots(rest: Option<usize>, arity: usize, nargs: nat)
    ensures
        slots_in_range(method_slots(rest, arity, nargs), nargs),
{
    let slots = method_slots(rest, arity, nargs);
    match rest {
        Some(n) => law_extern_call_arity(Some(n), true, nargs),
        None => law_extern_call_arity(Some(arity), false, nargs),
    }
    assert forall|k: int| 0 <= k < slots.len() implies (#[trigger] slots[k] matches ArgSlot::Arg(i) ==> i < nargs) by {
        if k < nargs {
        } else {
        }
    }
}

/// Lowers `recv.p(args)` on a user-class instance: `recv_class` is the
/// receiver's static class, `is_global` whether the receiver is a global
/// object, `recv_box` the lowered receiver and `lowered_args` the lowered
/// arguments; `ids`, `methods` and `sigs` are the classes' ids, the
/// `(class, method, body)` table and the methods' signatures. Along the
/// plan of `class_method_plan_spec` (see `class_method_call_result`);
/// `None`, with nothing emitted, when the call is not a user-class method
/// call.
pub fn lower_class_method_call(
    b: &mut FnBuilder,
    classes: &Vec<ClassInfo>,
    ids: &Vec<(String, u32)>,
    methods: &Vec<(String, String, String)>,
    sigs: &Vec<(String, String, usize, bool)>,
    recv_class: Option<&str>,
    is_global: bool,
    property: &str,
    recv_box: Operand,
    lowered_args: &Vec<Operand>,
) -> (res: Option<Operand>)
    requires
        old(b)@.wf(),
        ids_chains_end(classes@, ids@),
        recv_class matches Some(c) ==> name_chain_ends(classes@, c@, classes@.len()),
        lowered_args@.len() <= u32::MAX,
        class_method_plan_spec(
            classes@,
            ids@,
            methods@,
            sigs@,
            opt_view(recv_class),
            is_global,
            property@,
            lowered_args@.len() as nat,
        ) matches Some(plan) ==> old(b)@.next_reg + plan_regs(plan, lowered_args@.len() as nat) <= u64::MAX
            && old(b)@.blocks.len() + 2 * plan_cases(plan) + 8 <= usize::MAX,
    ensures
        final(b)@.wf(),
        match class_method_plan_spec(
            classes@,
            ids@,
            methods@,
            sigs@,
            opt_view(recv_class),
            is_global,
            property@,
            lowered_args@.len() as nat,
        ) {
            None => res is None && final(b)@ == old(b)@,
            Some(plan) => {
                let (post, v) = class_method_call_result(
                    old(b)@,
                    plan,
                    recv_box@,
                    operands_view(lowered_args@),
                    property@,
                    property.len() as u64,
                );
                res matches Some(o) && o@ == v && final(b)@ == post
            },
        },
{
    let plan = match class_method_plan(classes, ids, methods, sigs, recv_class, is_global, property, lowered_args.len()) {
        Some(p) => p,
        None => return None,
    };
    let ghost pv = plan@;
    let ghost nargs = lowered_args@.len() as nat;
    let ghost vv = operands_view(lowered_args@);
    let ghost pre = b@;
    match plan {
        ClassMethodPlan::Dynamic { entries, slots } => {
            proof {
                lemma_method_slots(
                    entries_rest(entries_view(entries@), methods@, sigs@, property@),
                    entries_arity(entries_view(entries@), methods@, sigs@, property@),
                    nargs,
                );
                lemma_slots_regs(slots@, vv, pre.next_reg);
                let s = slots@.len();
                assert(s * (nargs + 3) <= plan_regs(pv, nargs));
            }
            let full = emit_method_args(b, &slots, &recv_box, lowered_args);
            let v = emit_dynamic(b, &recv_box, &entries, &full, property, lowered_args.len());
            Some(v)
        },
        ClassMethodPlan::Static { fallback, overrides, slots } => {
            proof {
                let c = opt_view(recv_class)->0;
                let f = fallback@;
                let ovs = entries_view(overrides@);
                let base = match chain_arity(classes@, sigs@, c, property@, classes@.len()) {
                    Some(n) => n,
                    None => 0,
                };
                lemma_method_slots(
                    chain_rest(classes@, sigs@, c, property@, classes@.len()),
                    max_usize(base, overrides_arity(ovs, ids@, sigs@, property@)),
                    nargs,
                );
                lemma_slots_regs(slots@, vv, pre.next_reg);
                let s = slots@.len();
                assert(s * (nargs + 3) <= plan_regs(pv, nargs));
            }
            let full = emit_method_args(b, &slots, &recv_box, lowered_args);
            let args = as_double_args(copy_operands(&full));
            if overrides.len() == 0 {
                let v = emit_own_method_override_check(b, &recv_box, property, fallback.as_str(), args, &full);
                Some(v)
            } else {
                let v = emit_static_tower(b, &recv_box, &overrides, fallback.as_str(), &args);
                Some(v)
            }
        },
    }
}

/// The `(class, method)` keys of `sigs` are distinct, as those of the maps
/// they stand for.
pub open spec fn sig_keys_unique(sigs: Seq<(String, String, usize, bool)>) -> bool {
    forall|i: int, j: int| 0 <= i < j < sigs.len() ==> !(sigs[i].0@ == sigs[j].0@ && sigs[i].1@ == sigs[j].1@)
}

/// With distinct keys, `lookup_sig` is the lookup of a map: for the key of
/// an entry it answers that entry's signature (so the entries' order does
/// not matter), and for a key no entry has it answers `None`.
pub proof fn law_lookup_sig_is_map_lookup(sigs: Seq<(String, String, usize, bool)>, c: Seq<char>, p: Seq<char>)
    requires
        sig_keys_unique(sigs),
    ensures
        forall|k: int| 0 <= k < sigs.len() && #[trigger] sigs[k].0@ == c && sigs[k].1@ == p ==> lookup_sig(sigs, c, p) == Some(
            (sigs[k].2, sigs[k].3),
        ),
        (forall|k: int| 0 <= k < sigs.len() ==> !(#[trigger] sigs[k].0@ == c && sigs[k].1@ == p)) ==> lookup_sig(sigs, c, p) is None,
    decreases sigs.len(),
{
    if sigs.len() > 0 {
        let t = sigs.drop_first();
        assert forall|i: int, j: int| 0 <= i < j < t.len() implies !(t[i].0@ == t[j].0@ && t[i].1@ == t[j].1@) by {
            assert(t[i] == sigs[i + 1] && t[j] == sigs[j + 1]);
        }
        law_lookup_sig_is_map_lookup(t, c, p);
        assert forall|k: int| 0 <= k < sigs.len() && #[trigger] sigs[k].0@ == c && sigs[k].1@ == p implies lookup_sig(sigs, c, p)
            == Some((sigs[k].2, sigs[k].3)) by {
            if k > 0 {
                assert(t[k - 1] == sigs[k]);
            }
        }
        if forall|k: int| 0 <= k < sigs.len() ==> !(#[trigger] sigs[k].0@ == c && sigs[k].1@ == p) {
            assert forall|k: int| 0 <= k < t.len() implies !(#[trigger] t[k].0@ == c && t[k].1@ == p) by {
                assert(t[k] == sigs[k + 1]);
            }
        }
    }
}


/// A switch over overriding classes calls, in case block `i`, the body of
/// override `i` with the call's arguments; its default block calls the
/// class's own body with the same arguments; and its merge block, current
/// afterwards, joins one value per case and the default's.
pub proof fn law_static_tower_shape(
    pre: FnBuilderV,
    recv: OperandV,
    ovs: Seq<(u32, Seq<char>)>,
    fallback: Seq<char>,
    args: Seq<(Ty, OperandV)>,
)
    requires
        pre.wf(),
        ovs.len() >= 1,
    ensures
        ({
            let (post, v) = static_tower_result(pre, recv, ovs, fallback, args);
            let n = pre.blocks.len() as int;
            let k = ovs.len() as int;
            &&& forall|i: int| 0 <= i < k ==> (#[trigger] post.blocks[n + i]).insts[0] == InstV::Call {
                dest: Some((pre.next_reg + 2 + k + i) as u64),
                ret: Ty::Double,
                callee: ovs[i].1,
                args,
            }
            &&& post.blocks[n + k].insts[0] matches InstV::Call { callee, args: a, .. } && callee == fallback && a == args
            &&& post.current == n + k + 1
            &&& post.blocks[n + k + 1].insts.len() == 1
            &&& post.blocks[n + k + 1].insts[0] matches InstV::Phi { incoming, .. } && incoming.len() == k + 1
            &&& v == OperandV::Reg(post.blocks[n + k + 1].insts[0]->Phi_dest)
        }),
{
    let n = pre.blocks.len() as int;
    let k = ovs.len() as int;
    let t = tower_open(pre, "vdispatch"@, recv, ovs, args);
    let h = (FnBuilderV { next_reg: pre.next_reg + 2 + 2 * k, ..pre }).append_cur(tower_head(recv, ovs[0].0, pre.next_reg, n, k));
    assert(h.blocks.len() == n);
    assert forall|i: int| 0 <= i < k implies t.blocks[n + i] == case_block("vdispatch"@, ovs, i, args, pre.next_reg, n) by {
        assert(t.blocks[n + i] == (h.blocks + Seq::new(k as nat, |j: int| case_block("vdispatch"@, ovs, j, args, pre.next_reg, n)))[n + i]);
    }
    assert(t.blocks[n + k].insts.len() == 0);
    assert(t.blocks[n + k + 1].insts.len() == 0);
}


proof fn lemma_chain_fuel(
    classes: Seq<ClassInfo>,
    sigs: Seq<(String, String, usize, bool)>,
    methods: Seq<(String, String, String)>,
    c: Seq<char>,
    p: Seq<char>,
    f: nat,
    g: nat,
)
    requires
        name_chain_ends(classes, c, f),
        f <= g,
    ensures
        chain_rest(classes, sigs, c, p, f) == chain_rest(classes, sigs, c, p, g),
        chain_arity(classes, sigs, c, p, f) == chain_arity(classes, sigs, c, p, g),
        resolve_method_spec(classes, methods, c, p, f) == resolve_method_spec(classes, methods, c, p, g),
    decreases f,
{
    if let Some(i) = find_class(classes, c) {
        if let Some(e) = classes[i].extends {
            lemma_chain_fuel(classes, sigs, methods, e@, p, (f - 1) as nat, (g - 1) as nat);
        }
    }
}

/// The name of the class known class `c` extends, if any.
pub open spec fn parent_name(classes: Seq<ClassInfo>, c: Seq<char>) -> Option<Seq<char>> {
    match find_class(classes, c) {
        Some(i) => match classes[i].extends {
            Some(e) => Some(e@),
            None => None,
        },
        None => None,
    }
}

/// A method's signature is inherited along the class chain: a class whose
/// own entry for `p` has no rest parameter (or which has none) takes its
/// rest parameter, its parameter count and its body from its parent, and
/// one whose own entry has a rest parameter takes that one. So a call of a
/// rest method inherited from an ancestor still bundles its trailing
/// arguments into a rest array.
pub proof fn law_method_signature_is_inherited(
    classes: Seq<ClassInfo>,
    sigs: Seq<(String, String, usize, bool)>,
    methods: Seq<(String, String, String)>,
    c: Seq<char>,
    p: Seq<char>,
)
    requires
        name_chain_ends(classes, c, classes.len()),
    ensures
        lookup_sig(sigs, c, p) matches Some((n, true)) ==> chain_rest(classes, sigs, c, p, classes.len()) == Some(n),
        parent_name(classes, c) matches Some(e) ==> {
            &&& !(lookup_sig(sigs, c, p) matches Some((_, true))) ==> chain_rest(classes, sigs, c, p, classes.len())
                == chain_rest(classes, sigs, e, p, classes.len())
            &&& lookup_sig(sigs, c, p) is None ==> chain_arity(classes, sigs, c, p, classes.len()) == chain_arity(
                classes,
                sigs,
                e,
                p,
                classes.len(),
            )
            &&& lookup_method(methods, c, p) is None ==> resolve_method_spec(classes, methods, c, p, classes.len())
                == resolve_method_spec(classes, methods, e, p, classes.len())
        },
{
    let n = classes.len();
    lemma_find_class(classes, c);
    if let Some(i) = find_class(classes, c) {
        if let Some(e) = classes[i].extends {
            assert(name_chain_ends(classes, e@, (n - 1) as nat));
            lemma_chain_fuel(classes, sigs, methods, e@, p, (n - 1) as nat, n);
            if !(lookup_sig(sigs, c, p) matches Some((_, true))) {
                assert(chain_rest(classes, sigs, c, p, n) == chain_rest(classes, sigs, e@, p, (n - 1) as nat));
            }
            if lookup_sig(sigs, c, p) is None {
                assert(chain_arity(classes, sigs, c, p, n) == chain_arity(classes, sigs, e@, p, (n - 1) as nat));
            }
            if lookup_method(methods, c, p) is None {
                assert(resolve_method_spec(classes, methods, c, p, n) == resolve_method_spec(classes, methods, e@, p, (n - 1) as nat));
            }
        }
    }
}

/// With a rest parameter, a method call's slots end in the rest array that
/// starts after the fixed parameters, and each argument the caller passed
/// reaches the method exactly once.
pub proof fn law_method_slots_rest(rest: Option<usize>, arity: usize, nargs: nat)
    requires
        nargs <= usize::MAX,
    ensures
        rest matches Some(n) ==> method_slots(rest, arity, nargs).last() == ArgSlot::Rest(
            crate::call_args::sat_sub(n as nat, 1) as usize,
        ),
        crate::call_args::each_arg_once(method_slots(rest, arity, nargs), nargs),
{
    match rest {
        Some(n) => {
            law_extern_call_arity(Some(n), true, nargs);
            crate::call_args::law_each_argument_lands_once(None, Some(n), true, nargs);
        },
        None => {
            crate::call_args::law_each_argument_lands_once(None, Some(arity), false, nargs);
        },
    }
}


/// The body class `name` overrides `p` with, relative to class `c` whose
/// body is `fallback`: `name` is another class extending `c` and answering
/// `p` with a different body.
pub open spec fn override_body(
    classes: Seq<ClassInfo>,
    methods: Seq<(String, String, String)>,
    name: Seq<char>,
    c: Seq<char>,
    p: Seq<char>,
    fallback: Seq<char>,
) -> Option<Seq<char>> {
    if name != c && extends_class(classes, name, c, classes.len()) {
        match resolve_method_spec(classes, methods, name, p, classes.len()) {
            Some(f) => if f != fallback {
                Some(f)
            } else {
                None
            },
            None => None,
        }
    } else {
        None
    }
}

/// The switch over overriding classes holds exactly the overriding
/// classes, in the order of `ids`: each case is the id of a class that
/// extends the receiver's class and answers the method with a body other
/// than the receiver class's own, with that body; and every such class has
/// its case.
pub proof fn law_overrides_exact(
    classes: Seq<ClassInfo>,
    ids: Seq<(String, u32)>,
    methods: Seq<(String, String, String)>,
    c: Seq<char>,
    p: Seq<char>,
    fallback: Seq<char>,
)
    ensures
        ({
            let t = overrides_spec(classes, ids, methods, c, p, fallback);
            &&& forall|e: int| #![trigger t[e]] 0 <= e < t.len() ==> exists|k: int|
                0 <= k < ids.len() && #[trigger] ids[k].1 == t[e].0 && override_body(classes, methods, ids[k].0@, c, p, fallback)
                    == Some(t[e].1)
            &&& forall|k: int| 0 <= k < ids.len() ==> (#[trigger] override_body(classes, methods, ids[k].0@, c, p, fallback) matches Some(
                f,
            ) ==> t.contains((ids[k].1, f)))
        }),
    decreases ids.len(),
{
    if ids.len() > 0 {
        let d = ids.drop_last();
        law_overrides_exact(classes, d, methods, c, p, fallback);
        let prev = overrides_spec(classes, d, methods, c, p, fallback);
        let t = overrides_spec(classes, ids, methods, c, p, fallback);
        let last = ids.last();
        assert(ids[ids.len() - 1] == last);
        assert(t == match override_body(classes, methods, last.0@, c, p, fallback) {
            Some(f) => prev.push((last.1, f)),
            None => prev,
        });
        assert forall|e: int| #![trigger t[e]] 0 <= e < t.len() implies exists|k: int|
            0 <= k < ids.len() && #[trigger] ids[k].1 == t[e].0 && override_body(classes, methods, ids[k].0@, c, p, fallback)
                == Some(t[e].1) by {
            if e < prev.len() {
                assert(t[e] == prev[e]);
                let k = choose|k: int|
                    0 <= k < d.len() && #[trigger] d[k].1 == prev[e].0 && override_body(classes, methods, d[k].0@, c, p, fallback)
                        == Some(prev[e].1);
                assert(ids[k] == d[k]);
            }
        }
        assert forall|k: int| 0 <= k < ids.len() implies (#[trigger] override_body(classes, methods, ids[k].0@, c, p, fallback) matches Some(
            f,
        ) ==> t.contains((ids[k].1, f))) by {
            if let Some(f) = override_body(classes, methods, ids[k].0@, c, p, fallback) {
                if k < d.len() {
                    assert(ids[k] == d[k]);
                    assert(prev.contains((d[k].1, f)));
                    let e = choose|e: int| 0 <= e < prev.len() && prev[e] == (d[k].1, f);
                    assert(t[e] == prev[e]);
                } else {
                    assert(t[t.len() - 1] == (ids[k].1, f));
                }
            }
        }
    } else {
        assert(overrides_spec(classes, ids, methods, c, p, fallback).len() == 0);
    }
}

} // verus!
