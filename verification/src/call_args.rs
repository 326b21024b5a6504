//! How the arguments of a direct call are laid out against the callee's
//! declared parameters: padding missing trailing arguments with `undefined`,
//! bundling the trailing arguments into a rest array, and materializing the
//! synthetic `arguments` object.

use vstd::prelude::*;

verus! {

/// One parameter slot of a direct call.
#[derive(Copy, Clone, Debug, PartialEq, Eq, Structural)]
pub enum ArgSlot {
    /// The caller's argument at this index.
    Arg(usize),
    /// `undefined` for a parameter the caller did not pass.
    Undefined,
    /// A JS array of the caller's arguments from this index on.
    Rest(usize),
    /// A JS array of all the caller's arguments (the `arguments` object).
    Arguments,
    /// A JS array of all the caller's arguments, marked as an `arguments`
    /// object (`js_array_mark_arguments_object`).
    MarkedArguments,
}

/// The first `count` parameters: the caller's arguments where passed, else
/// `undefined`.
pub open spec fn padded(count: nat, nargs: nat) -> Seq<ArgSlot> {
    Seq::new(count, |i: int| if i < nargs { ArgSlot::Arg(i as usize) } else { ArgSlot::Undefined })
}

/// The first `min(count, nargs)` arguments, unpadded.
pub open spec fn passed(count: nat, nargs: nat) -> Seq<ArgSlot> {
    Seq::new(if count < nargs { count } else { nargs }, |i: int| ArgSlot::Arg(i as usize))
}

/// `n - k`, or 0.
pub open spec fn sat_sub(n: nat, k: nat) -> nat {
    if n >= k {
        (n - k) as nat
    } else {
        0
    }
}

/// The parameter count of an imported function: its declared count, or the
/// number of arguments passed when it is not known.
pub open spec fn declared_or(declared: Option<usize>, nargs: nat) -> nat {
    match declared {
        Some(d) => d as nat,
        None => nargs,
    }
}

/// The slots of a call of an imported function (`perry_fn_<src>__<name>`).
/// With a rest parameter, the fixed parameters are padded with `undefined`
/// and the rest array is always materialized (empty when no argument reaches
/// it); without one, the arguments are passed and padded with `undefined` up
/// to the declared count.
pub open spec fn extern_call_slots_spec(declared: Option<usize>, has_rest: bool, nargs: nat) -> Seq<ArgSlot> {
    let d = declared_or(declared, nargs);
    if has_rest {
        let fixed = sat_sub(d, 1);
        padded(fixed, nargs).push(ArgSlot::Rest(fixed as usize))
    } else {
        padded(if d > nargs { d } else { nargs }, nargs)
    }
}

/// The slots of a namespace-member call of a function declaration: with a
/// rest parameter, the passed fixed arguments (no padding) then the rest
/// array; without one, the arguments padded with `undefined` up to the
/// declared count.
pub open spec fn namespace_call_slots_spec(declared: Option<usize>, has_rest: bool, nargs: nat) -> Seq<ArgSlot> {
    let d = declared_or(declared, nargs);
    if has_rest {
        let fixed = sat_sub(d, 1);
        passed(fixed, nargs).push(ArgSlot::Rest(fixed as usize))
    } else {
        padded(if d > nargs { d } else { nargs }, nargs)
    }
}

/// What is known of a local function's parameters at a direct call.
#[derive(Copy, Clone, Debug, PartialEq, Eq, Structural)]
pub struct FuncSig {
    pub declared_count: usize,
    pub has_rest: bool,
    /// The function reads `arguments` (a synthetic trailing parameter).
    pub synthetic_arguments: bool,
    /// The synthetic `arguments` parameter is the rest parameter itself.
    pub synthetic_is_rest: bool,
}

/// The slots of a direct call of a local function. With a synthetic
/// `arguments` parameter beside a rest parameter, the fixed parameters are
/// padded, then come the rest array and the `arguments` array; with a
/// synthetic `arguments` that is the rest parameter, the fixed parameters
/// are padded, then comes the marked `arguments` array; with only a rest
/// parameter, the passed fixed arguments then the rest array; otherwise the
/// arguments as they are. A function without a known signature gets its
/// arguments as they are.
pub open spec fn func_ref_call_slots_spec(sig: Option<FuncSig>, nargs: nat) -> Seq<ArgSlot> {
    match sig {
        None => passed(nargs, nargs),
        Some(s) => if s.synthetic_arguments && s.has_rest && !s.synthetic_is_rest {
            let fixed = sat_sub(s.declared_count as nat, 2);
            padded(fixed, nargs).push(ArgSlot::Rest(fixed as usize)).push(ArgSlot::Arguments)
        } else if s.has_rest && s.synthetic_arguments {
            padded(sat_sub(s.declared_count as nat, 1), nargs).push(ArgSlot::MarkedArguments)
        } else if s.has_rest {
            let fixed = sat_sub(s.declared_count as nat, 1);
            passed(fixed, nargs).push(ArgSlot::Rest(fixed as usize))
        } else {
            passed(nargs, nargs)
        },
    }
}

/// Appends the first `count` parameters, padded with `undefined` past
/// `nargs`, to `out`.
fn push_padded(out: &mut Vec<ArgSlot>, count: usize, nargs: usize)
    ensures
        final(out)@ == old(out)@ + padded(count as nat, nargs as nat),
{
    let ghost start = out@;
    let mut i: usize = 0;
    while i < count
        invariant
            i <= count,
            out@ == start + padded(i as nat, nargs as nat),
        decreases count - i,
    {
        if i < nargs {
            out.push(ArgSlot::Arg(i));
        } else {
            out.push(ArgSlot::Undefined);
        }
        proof {
            assert(padded(i as nat, nargs as nat).push(out@.last()) =~= padded((i + 1) as nat, nargs as nat));
        }
        i = i + 1;
    }
}

/// Appends the first `min(count, nargs)` arguments to `out`.
fn push_passed(out: &mut Vec<ArgSlot>, count: usize, nargs: usize)
    ensures
        final(out)@ == old(out)@ + passed(count as nat, nargs as nat),
{
    let n = if count < nargs { count } else { nargs };
    let ghost start = out@;
    let mut i: usize = 0;
    while i < n
        invariant
            i <= n,
            n == (if count < nargs { count } else { nargs }),
            out@ == start + Seq::new(i as nat, |k: int| ArgSlot::Arg(k as usize)),
        decreases n - i,
    {
        out.push(ArgSlot::Arg(i));
        proof {
            assert(Seq::new(i as nat, |k: int| ArgSlot::Arg(k as usize)).push(ArgSlot::Arg(i)) =~= Seq::new(
                (i + 1) as nat,
                |k: int| ArgSlot::Arg(k as usize),
            ));
        }
        i = i + 1;
    }
    proof {
        assert(Seq::new(n as nat, |k: int| ArgSlot::Arg(k as usize)) =~= passed(count as nat, nargs as nat));
    }
}

/// The parameter slots of a call of an imported function.
pub fn extern_call_slots(declared: Option<usize>, has_rest: bool, nargs: usize) -> (res: Vec<ArgSlot>)
    ensures
        res@ == extern_call_slots_spec(declared, has_rest, nargs as nat),
{
    let d = match declared {
        Some(d) => d,
        None => nargs,
    };
    let mut out: Vec<ArgSlot> = Vec::new();
    if has_rest {
        let fixed = if d >= 1 { d - 1 } else { 0 };
        push_padded(&mut out, fixed, nargs);
        out.push(ArgSlot::Rest(fixed));
    } else {
        let target = if d > nargs { d } else { nargs };
        push_padded(&mut out, target, nargs);
    }
    proof {
        assert(out@ =~= extern_call_slots_spec(declared, has_rest, nargs as nat));
    }
    out
}

/// The parameter slots of a namespace-member call of a function declaration.
pub fn namespace_call_slots(declared: Option<usize>, has_rest: bool, nargs: usize) -> (res: Vec<ArgSlot>)
    ensures
        res@ == namespace_call_slots_spec(declared, has_rest, nargs as nat),
{
    let d = match declared {
        Some(d) => d,
        None => nargs,
    };
    let mut out: Vec<ArgSlot> = Vec::new();
    if has_rest {
        let fixed = if d >= 1 { d - 1 } else { 0 };
        push_passed(&mut out, fixed, nargs);
        out.push(ArgSlot::Rest(fixed));
    } else {
        let target = if d > nargs { d } else { nargs };
        push_padded(&mut out, target, nargs);
    }
    proof {
        assert(out@ =~= namespace_call_slots_spec(declared, has_rest, nargs as nat));
    }
    out
}

/// The parameter slots of a direct call of a local function.
pub fn func_ref_call_slots(sig: Option<FuncSig>, nargs: usize) -> (res: Vec<ArgSlot>)
    ensures
        res@ == func_ref_call_slots_spec(sig, nargs as nat),
{
    let mut out: Vec<ArgSlot> = Vec::new();
    match sig {
        None => {
            push_passed(&mut out, nargs, nargs);
        },
        Some(s) => {
            if s.synthetic_arguments && s.has_rest && !s.synthetic_is_rest {
                let fixed = if s.declared_count >= 2 { s.declared_count - 2 } else { 0 };
                push_padded(&mut out, fixed, nargs);
                out.push(ArgSlot::Rest(fixed));
                out.push(ArgSlot::Arguments);
            } else if s.has_rest && s.synthetic_arguments {
                let fixed = if s.declared_count >= 1 { s.declared_count - 1 } else { 0 };
                push_padded(&mut out, fixed, nargs);
                out.push(ArgSlot::MarkedArguments);
            } else if s.has_rest {
                let fixed = if s.declared_count >= 1 { s.declared_count - 1 } else { 0 };
                push_passed(&mut out, fixed, nargs);
                out.push(ArgSlot::Rest(fixed));
            } else {
                push_passed(&mut out, nargs, nargs);
            }
        },
    }
    proof {
        assert(out@ =~= func_ref_call_slots_spec(sig, nargs as nat));
    }
    out
}

/// A call of an imported function passes exactly as many values as the
/// callee's LLVM signature declares (`max(declared, 1)` with a rest
/// parameter, else `max(declared, passed)`), each argument the caller passed
/// lands in its own parameter (up to the rest parameter), the padding is
/// `undefined`, and with a rest parameter the last slot is the rest array of
/// every argument from the fixed count on.
pub proof fn law_extern_call_arity(declared: Option<usize>, has_rest: bool, nargs: nat)
    ensures
        ({
            let d = declared_or(declared, nargs);
            let slots = extern_call_slots_spec(declared, has_rest, nargs);
            &&& slots.len() == if has_rest {
                if d >= 1 { d } else { 1 }
            } else {
                if d > nargs { d } else { nargs }
            }
            &&& forall|i: int|
                0 <= i < slots.len() && i < nargs && !(has_rest && i == slots.len() - 1) ==> slots[i]
                    == ArgSlot::Arg(i as usize)
            &&& forall|i: int|
                0 <= i < slots.len() && i >= nargs && !(has_rest && i == slots.len() - 1) ==> slots[i]
                    == ArgSlot::Undefined
            &&& has_rest ==> slots.last() == ArgSlot::Rest(sat_sub(d, 1) as usize)
        }),
{
}


/// Whether slot `s` passes the caller's argument `i` (of `nargs`): as
/// itself, or inside a rest or `arguments` array.
pub open spec fn slot_passes(s: ArgSlot, i: nat, nargs: nat) -> bool {
    match s {
        ArgSlot::Arg(j) => j == i,
        ArgSlot::Undefined => false,
        ArgSlot::Rest(from) => from <= i && i < nargs,
        ArgSlot::Arguments | ArgSlot::MarkedArguments => i < nargs,
    }
}

/// Whether some slot passes argument `i`.
pub open spec fn passed_somewhere(slots: Seq<ArgSlot>, i: nat, nargs: nat) -> bool {
    exists|k: int| 0 <= k < slots.len() && #[trigger] slot_passes(slots[k], i, nargs)
}

/// Every argument the caller passed reaches the callee through exactly one
/// parameter slot.
pub open spec fn each_arg_once(slots: Seq<ArgSlot>, nargs: nat) -> bool {
    &&& forall|i: nat| i < nargs ==> #[trigger] passed_somewhere(slots, i, nargs)
    &&& forall|i: nat, k1: int, k2: int|
        i < nargs && 0 <= k1 < k2 < slots.len() && #[trigger] slot_passes(slots[k1], i, nargs) ==> !#[trigger] slot_passes(
            slots[k2],
            i,
            nargs,
        )
}

proof fn lemma_padded_then_rest_once(head: Seq<ArgSlot>, fixed: nat, nargs: nat)
    requires
        head.len() <= fixed || head.len() <= nargs,
        forall|k: int| 0 <= k < head.len() ==> (#[trigger] head[k] == ArgSlot::Arg(k as usize) && k < nargs) || (head[k]
            == ArgSlot::Undefined && k >= nargs),
        head.len() == fixed || (head.len() == nargs && nargs < fixed),
        fixed <= usize::MAX,
        nargs <= usize::MAX,
    ensures
        each_arg_once(head.push(ArgSlot::Rest(fixed as usize)), nargs),
{
    let s = head.push(ArgSlot::Rest(fixed as usize));
    assert forall|i: nat| i < nargs implies #[trigger] passed_somewhere(s, i, nargs) by {
        if i < head.len() {
            assert(s[i as int] == head[i as int]);
            assert(slot_passes(s[i as int], i, nargs));
        } else {
            assert(s[head.len() as int] == ArgSlot::Rest(fixed as usize));
            assert(slot_passes(s[head.len() as int], i, nargs));
        }
    }
    assert forall|i: nat, k1: int, k2: int|
        i < nargs && 0 <= k1 < k2 < s.len() && #[trigger] slot_passes(s[k1], i, nargs) implies !#[trigger] slot_passes(
        s[k2],
        i,
        nargs,
    ) by {
        assert(s[k1] == head[k1]);
        if k2 < head.len() {
            assert(s[k2] == head[k2]);
        } else {
            assert(s[k2] == ArgSlot::Rest(fixed as usize));
        }
    }
}

proof fn lemma_padded_once(slots: Seq<ArgSlot>, nargs: nat)
    requires
        slots.len() >= nargs,
        slots.len() <= usize::MAX,
        forall|k: int| 0 <= k < slots.len() ==> (#[trigger] slots[k] == ArgSlot::Arg(k as usize) && k < nargs) || (slots[k]
            == ArgSlot::Undefined && k >= nargs),
    ensures
        each_arg_once(slots, nargs),
{
    assert forall|i: nat| i < nargs implies #[trigger] passed_somewhere(slots, i, nargs) by {
        assert(slot_passes(slots[i as int], i, nargs));
    }
}

/// A direct call of a local function without a synthetic `arguments`
/// parameter, of an imported function, or of a namespace member passes
/// each argument the caller gave through exactly one parameter: with a
/// rest parameter after `k` fixed ones, arguments before `k` go to their
/// own parameters and the rest array starts at argument `k`.
pub proof fn law_each_argument_lands_once(sig: Option<FuncSig>, declared: Option<usize>, has_rest: bool, nargs: nat)
    requires
        nargs <= usize::MAX,
        sig matches Some(s) ==> !s.synthetic_arguments,
    ensures
        each_arg_once(func_ref_call_slots_spec(sig, nargs), nargs),
        each_arg_once(extern_call_slots_spec(declared, has_rest, nargs), nargs),
        each_arg_once(namespace_call_slots_spec(declared, has_rest, nargs), nargs),
        sig matches Some(s) ==> (s.has_rest ==> func_ref_call_slots_spec(sig, nargs).last() == ArgSlot::Rest(
            sat_sub(s.declared_count as nat, 1) as usize,
        )),
{
    match sig {
        None => lemma_padded_once(passed(nargs, nargs), nargs),
        Some(s) => {
            if s.has_rest {
                let fixed = sat_sub(s.declared_count as nat, 1);
                lemma_padded_then_rest_once(passed(fixed, nargs), fixed, nargs);
            } else {
                lemma_padded_once(passed(nargs, nargs), nargs);
            }
        },
    }
    let d = declared_or(declared, nargs);
    if has_rest {
        let fixed = sat_sub(d, 1);
        if d > 0 {
            assert(fixed <= usize::MAX);
        }
        lemma_padded_then_rest_once(padded(fixed, nargs), fixed, nargs);
        lemma_padded_then_rest_once(passed(fixed, nargs), fixed, nargs);
    } else {
        lemma_padded_once(padded(if d > nargs { d } else { nargs }, nargs), nargs);
    }
}


/// A local function that reads `arguments` (beside its rest parameter)
/// gets every argument the caller passed in that object, which is its last
/// parameter; when the rest parameter is a separate one, the rest array
/// just before it starts after the fixed parameters.
pub proof fn law_arguments_object_holds_every_argument(s: FuncSig, nargs: nat)
    requires
        s.synthetic_arguments,
        s.has_rest,
    ensures
        ({
            let slots = func_ref_call_slots_spec(Some(s), nargs);
            &&& forall|i: nat| i < nargs ==> #[trigger] slot_passes(slots.last(), i, nargs)
            &&& !s.synthetic_is_rest ==> slots[slots.len() - 2] == ArgSlot::Rest(sat_sub(s.declared_count as nat, 2) as usize)
        }),
{
}

} // verus!
