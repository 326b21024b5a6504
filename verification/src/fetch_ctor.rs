//! `new Response(body, init)` and `new Request(url, init)`: the runtime
//! constructor called with the string pointer of the first argument and
//! the slots of the init options, read off an inline object literal at
//! compile time or, for a `Response`, off a runtime object.

use vstd::prelude::*;

use crate::fetch::{call_inst, headers_build_insts, headers_object_insts, pairs_view, str_ptr_call, str_ptr_inst};
use crate::ir::{args_view, lemma_append_cur_empty, lemma_append_cur_twice, copy_operand, insts_view, FnBuilder, FnBuilderV, Inst, InstV, Operand, OperandV, Ty};
use crate::override_check::{intern_index, intern_strings};
use crate::text::str_eq;

verus! {

/// The fetch classes whose construction reads an init options object.
#[derive(Copy, Clone, Debug, PartialEq, Eq, Structural)]
pub enum FetchCtor {
    Response,
    Request,
}

/// A property of an inline init options literal: its key, its lowered
/// value, and, when the value is itself an inline object literal, that
/// literal's entries (lowered keys and values).
pub struct InitProp {
    pub key: String,
    pub value: Operand,
    pub entries: Option<Vec<(Operand, Operand)>>,
}

/// The mathematical value of an init property.
pub struct InitPropV {
    pub key: Seq<char>,
    pub value: OperandV,
    pub entries: Option<Seq<(OperandV, OperandV)>>,
}

impl View for InitProp {
    type V = InitPropV;

    open spec fn view(&self) -> InitPropV {
        InitPropV {
            key: self.key@,
            value: self.value@,
            entries: match self.entries {
                Some(e) => Some(pairs_view(e@)),
                None => None,
            },
        }
    }
}

/// The views of init properties.
pub open spec fn init_props_view(props: Seq<InitProp>) -> Seq<InitPropV> {
    props.map_values(|p: InitProp| p@)
}

/// The init argument of a construction: absent, an inline object literal
/// (its properties), or any other value (lowered).
pub enum InitArg {
    Absent,
    Literal(Vec<InitProp>),
    Value(Operand),
}

/// The mathematical value of an init argument.
pub enum InitArgV {
    Absent,
    Literal(Seq<InitPropV>),
    Value(OperandV),
}

impl View for InitArg {
    type V = InitArgV;

    open spec fn view(&self) -> InitArgV {
        match self {
            InitArg::Absent => InitArgV::Absent,
            InitArg::Literal(ps) => InitArgV::Literal(init_props_view(ps@)),
            InitArg::Value(o) => InitArgV::Value(o@),
        }
    }
}

/// The init property that fills the constructor's first slot: a
/// `Response`'s `status`, a `Request`'s `method`.
pub open spec fn first_key(k: FetchCtor) -> Seq<char> {
    match k {
        FetchCtor::Response => "status"@,
        FetchCtor::Request => "method"@,
    }
}

/// The init property that fills the second slot, always as a string
/// pointer: a `Response`'s `statusText`, a `Request`'s `body`.
pub open spec fn second_key(k: FetchCtor) -> Seq<char> {
    match k {
        FetchCtor::Response => "statusText"@,
        FetchCtor::Request => "body"@,
    }
}

/// The first slot when no property fills it: status `200`, or the null
/// method pointer.
pub open spec fn first_default(k: FetchCtor) -> OperandV {
    match k {
        FetchCtor::Response => OperandV::Num(200),
        FetchCtor::Request => OperandV::Int(0),
    }
}

/// What reading init properties has produced: the instructions emitted,
/// the next free register, and the three slots (first, second, headers).
pub struct InitSlots {
    pub insts: Seq<InstV>,
    pub next: int,
    pub first: OperandV,
    pub second: OperandV,
    pub headers: OperandV,
}

/// `js_headers_new()` into register `r`, then a `js_headers_set` of each
/// entry (see `headers_object_insts`).
pub open spec fn headers_new_insts(entries: Seq<(OperandV, OperandV)>, r: int) -> Seq<InstV> {
    seq![InstV::Call { dest: Some(r as u64), ret: Ty::Double, callee: "js_headers_new"@, args: seq![] }]
        + headers_object_insts(entries, r)
}

/// The slots after reading the properties of an inline init literal in
/// order, from register `r`: a `Response`'s `status` is its value, a
/// `Request`'s `method` and the second key are string pointers of their
/// values, `headers` builds a `Headers` handle when its value is an inline
/// literal and is its value otherwise; other keys fill nothing. A later
/// property overrides an earlier one. Unfilled slots keep their defaults
/// (`first_default`, the null pointer, `0.0`).
pub open spec fn init_slots(k: FetchCtor, props: Seq<InitPropV>, r: int) -> InitSlots
    decreases props.len(),
{
    if props.len() == 0 {
        InitSlots { insts: seq![], next: r, first: first_default(k), second: OperandV::Int(0), headers: OperandV::Zero }
    } else {
        let s = init_slots(k, props.drop_last(), r);
        let p = props.last();
        if p.key == first_key(k) {
            match k {
                FetchCtor::Response => InitSlots { first: p.value, ..s },
                FetchCtor::Request => InitSlots {
                    insts: s.insts.push(str_ptr_call(s.next, p.value)),
                    next: s.next + 1,
                    first: OperandV::Reg(s.next as u64),
                    ..s
                },
            }
        } else if p.key == second_key(k) {
            InitSlots {
                insts: s.insts.push(str_ptr_call(s.next, p.value)),
                next: s.next + 1,
                second: OperandV::Reg(s.next as u64),
                ..s
            }
        } else if p.key == "headers"@ {
            match p.entries {
                Some(e) => InitSlots {
                    insts: s.insts + headers_new_insts(e, s.next),
                    next: s.next + 1 + 3 * e.len(),
                    headers: OperandV::Reg(s.next as u64),
                    ..s
                },
                None => InitSlots { headers: p.value, ..s },
            }
        } else {
            s
        }
    }
}

/// The value of the last init property keyed `key`, or `default`.
pub open spec fn last_init_value(props: Seq<InitPropV>, key: Seq<char>, default: OperandV) -> OperandV
    decreases props.len(),
{
    if props.len() == 0 {
        default
    } else if props.last().key == key {
        props.last().value
    } else {
        last_init_value(props.drop_last(), key, default)
    }
}

/// A `Response` is built with the status of the last `status` property of
/// its init literal (later properties override earlier ones), `200` when
/// there is none.
pub proof fn law_last_status_wins(props: Seq<InitPropV>, r: int)
    ensures
        init_slots(FetchCtor::Response, props, r).first == last_init_value(props, "status"@, OperandV::Num(200)),
    decreases props.len(),
{
    if props.len() > 0 {
        law_last_status_wins(props.drop_last(), r);
    }
}

/// The registers that reading one init property takes.
pub open spec fn prop_regs(k: FetchCtor, p: InitPropV) -> nat {
    if p.key == first_key(k) {
        match k {
            FetchCtor::Response => 0,
            FetchCtor::Request => 1,
        }
    } else if p.key == second_key(k) {
        1
    } else if p.key == "headers"@ {
        match p.entries {
            Some(e) => 1 + 3 * e.len(),
            None => 0,
        }
    } else {
        0
    }
}

/// The registers that reading init properties takes.
pub open spec fn init_regs(k: FetchCtor, props: Seq<InitPropV>) -> nat
    decreases props.len(),
{
    if props.len() == 0 {
        0
    } else {
        init_regs(k, props.drop_last()) + prop_regs(k, props.last())
    }
}

proof fn lemma_slots_next(k: FetchCtor, props: Seq<InitPropV>, r: int)
    ensures
        init_slots(k, props, r).next == r + init_regs(k, props),
    decreases props.len(),
{
    if props.len() > 0 {
        lemma_slots_next(k, props.drop_last(), r);
    }
}

proof fn lemma_regs_prefix(k: FetchCtor, props: Seq<InitPropV>, i: int)
    requires
        0 <= i <= props.len(),
    ensures
        init_regs(k, props.take(i)) <= init_regs(k, props),
    decreases props.len() - i,
{
    if i < props.len() {
        lemma_regs_prefix(k, props, i + 1);
        assert(props.take(i + 1).drop_last() =~= props.take(i));
    } else {
        assert(props.take(i) =~= props);
    }
}

/// The lookup of property `key` (string-pool entry `key_idx`) on the
/// options object whose handle is in register `h`, from register `q`: the
/// key's boxed handle loaded, unboxed, and passed with `h` to
/// `js_object_get_field_by_name_f64`.
pub open spec fn field_get_insts(key_idx: int, h: int, q: int) -> Seq<InstV> {
    seq![
        InstV::Load { dest: q as u64, ty: Ty::Double, ptr: OperandV::StrHandle(key_idx as usize) },
        InstV::UnboxToI64 { dest: (q + 1) as u64, val: OperandV::Reg(q as u64) },
        InstV::Call {
            dest: Some((q + 2) as u64),
            ret: Ty::Double,
            callee: "js_object_get_field_by_name_f64"@,
            args: seq![(Ty::I64, OperandV::Reg(h as u64)), (Ty::I64, OperandV::Reg((q + 1) as u64))],
        },
    ]
}

/// The string pool and slots of a `Response` whose init is the runtime
/// object `o`, from register `r`: `o` unboxed to its handle, then its
/// `status`, its `statusText` (as a string pointer) and its `headers`
/// read by name, each key interned in turn.
pub open spec fn runtime_init(strings: Seq<Seq<char>>, o: OperandV, r: int) -> (Seq<Seq<char>>, InitSlots) {
    let i1 = intern_index(strings, "status"@);
    let s1 = intern_strings(strings, "status"@);
    let i2 = intern_index(s1, "statusText"@);
    let s2 = intern_strings(s1, "statusText"@);
    let i3 = intern_index(s2, "headers"@);
    let s3 = intern_strings(s2, "headers"@);
    (
        s3,
        InitSlots {
            insts: seq![InstV::UnboxToI64 { dest: r as u64, val: o }] + field_get_insts(i1, r, r + 1)
                + field_get_insts(i2, r, r + 4) + seq![str_ptr_call(r + 7, OperandV::Reg((r + 6) as u64))]
                + field_get_insts(i3, r, r + 8),
            next: r + 11,
            first: OperandV::Reg((r + 3) as u64),
            second: OperandV::Reg((r + 7) as u64),
            headers: OperandV::Reg((r + 10) as u64),
        },
    )
}

/// The runtime constructor of a fetch class.
pub open spec fn fetch_ctor_runtime(k: FetchCtor) -> Seq<char> {
    match k {
        FetchCtor::Response => "js_response_new"@,
        FetchCtor::Request => "js_request_new"@,
    }
}

/// The type the constructor takes its first slot as: a `Response`'s
/// status is a `double`, a `Request`'s method a string pointer.
pub open spec fn first_ty(k: FetchCtor) -> Ty {
    match k {
        FetchCtor::Response => Ty::Double,
        FetchCtor::Request => Ty::I64,
    }
}

/// The string pool and the init slots of a construction whose init
/// argument is `init`, from register `r`.
pub open spec fn init_part(k: FetchCtor, strings: Seq<Seq<char>>, r: int, init: InitArgV) -> (Seq<Seq<char>>, InitSlots) {
    match init {
        InitArgV::Literal(ps) => (strings, init_slots(k, ps, r)),
        InitArgV::Value(o) => match k {
            FetchCtor::Response => runtime_init(strings, o, r),
            FetchCtor::Request => (strings, init_slots(k, Seq::empty(), r)),
        },
        InitArgV::Absent => (strings, init_slots(k, Seq::empty(), r)),
    }
}

/// The builder and the handle after `new Response(lead, init)` or
/// `new Request(lead, init)` from `pre`: the string pointer of `lead` (the
/// null pointer when absent), then the init slots (see `init_slots`; a
/// `Response` whose init is no literal reads it at run time, see
/// `runtime_init`, while a `Request` then keeps the defaults), then the
/// runtime constructor called with the pointer and the three slots. The
/// handle is a plain `double`.
pub open spec fn fetch_ctor_result(k: FetchCtor, pre: FnBuilderV, lead: Option<OperandV>, init: InitArgV) -> (
    FnBuilderV,
    OperandV,
) {
    let r0 = pre.next_reg;
    let head = match lead {
        Some(v) => seq![str_ptr_call(r0, v)],
        None => Seq::empty(),
    };
    let lp = match lead {
        Some(v) => OperandV::Reg(r0 as u64),
        None => OperandV::Int(0),
    };
    let r1 = match lead {
        Some(v) => r0 + 1,
        None => r0,
    };
    let (strings, s) = init_part(k, pre.strings, r1, init);
    let call = InstV::Call {
        dest: Some(s.next as u64),
        ret: Ty::Double,
        callee: fetch_ctor_runtime(k),
        args: seq![(Ty::I64, lp), (first_ty(k), s.first), (Ty::I64, s.second), (Ty::Double, s.headers)],
    };
    (
        (FnBuilderV { next_reg: s.next + 1, strings, ..pre }).append_cur(head + s.insts + seq![call]),
        OperandV::Reg(s.next as u64),
    )
}

/// The registers the init argument's literal properties take.
pub open spec fn init_arg_regs(k: FetchCtor, init: InitArgV) -> nat {
    match init {
        InitArgV::Literal(ps) => init_regs(k, ps),
        _ => 0,
    }
}

fn first_key_exec(k: FetchCtor) -> (s: &'static str)
    ensures
        s@ == first_key(k),
{
    match k {
        FetchCtor::Response => "status",
        FetchCtor::Request => "method",
    }
}

fn second_key_exec(k: FetchCtor) -> (s: &'static str)
    ensures
        s@ == second_key(k),
{
    match k {
        FetchCtor::Response => "statusText",
        FetchCtor::Request => "body",
    }
}

/// Reads the properties of an inline init literal from register `r` (see
/// `init_slots`): the instructions and the slots.
fn init_slots_exec(k: FetchCtor, props: &Vec<InitProp>, r: u64) -> (res: (Vec<Inst>, u64, Operand, Operand, Operand))
    requires
        r + init_regs(k, init_props_view(props@)) <= u64::MAX,
    ensures
        ({
            let s = init_slots(k, init_props_view(props@), r as int);
            &&& insts_view(res.0@) == s.insts
            &&& res.1 == s.next
            &&& res.2@ == s.first
            &&& res.3@ == s.second
            &&& res.4@ == s.headers
        }),
{
    let ghost pv = init_props_view(props@);
    let mut insts: Vec<Inst> = Vec::new();
    let mut next: u64 = r;
    let mut first = match k {
        FetchCtor::Response => Operand::Num(200),
        FetchCtor::Request => Operand::Int(0),
    };
    let mut second = Operand::Int(0);
    let mut headers = Operand::Zero;
    assert(pv.take(0) =~= Seq::<InitPropV>::empty());
    assert(insts_view(insts@) =~= Seq::<InstV>::empty());
    let mut i: usize = 0;
    while i < props.len()
        invariant
            i <= props@.len(),
            pv == init_props_view(props@),
            r + init_regs(k, pv) <= u64::MAX,
            ({
                let s = init_slots(k, pv.take(i as int), r as int);
                &&& insts_view(insts@) == s.insts
                &&& next == s.next
                &&& first@ == s.first
                &&& second@ == s.second
                &&& headers@ == s.headers
            }),
        decreases props@.len() - i,
    {
        let ghost t = pv.take(i + 1);
        let ghost before = insts@;
        proof {
            assert(t.drop_last() =~= pv.take(i as int));
            assert(t.last() == pv[i as int]);
            lemma_regs_prefix(k, pv, i + 1);
            lemma_slots_next(k, t, r as int);
            lemma_slots_next(k, pv.take(i as int), r as int);
        }
        let p = &props[i];
        assert(p@ == pv[i as int]);
        if str_eq(p.key.as_str(), first_key_exec(k)) {
            match k {
                FetchCtor::Response => {
                    first = copy_operand(&p.value);
                },
                FetchCtor::Request => {
                    insts.push(str_ptr_inst(next, copy_operand(&p.value)));
                    first = Operand::Reg(next);
                    next = next + 1;
                    assert(insts_view(insts@) =~= insts_view(before).push(str_ptr_call((next - 1) as int, p.value@)));
                },
            }
        } else if str_eq(p.key.as_str(), second_key_exec(k)) {
            insts.push(str_ptr_inst(next, copy_operand(&p.value)));
            second = Operand::Reg(next);
            next = next + 1;
            assert(insts_view(insts@) =~= insts_view(before).push(str_ptr_call((next - 1) as int, p.value@)));
        } else if str_eq(p.key.as_str(), "headers") {
            match &p.entries {
                Some(e) => {
                    let mut hv = headers_build_insts(e, next);
                    let ghost hvv = hv@;
                    insts.append(&mut hv);
                    assert(insts_view(insts@) =~= insts_view(before) + insts_view(hvv));
                    headers = Operand::Reg(next);
                    next = next + 1 + 3 * (e.len() as u64);
                },
                None => {
                    headers = copy_operand(&p.value);
                },
            }
        }
        i = i + 1;
    }
    assert(pv.take(pv.len() as int) =~= pv);
    (insts, next, first, second, headers)
}

/// Reads property `key` by name off the options object whose handle is in
/// register `h` (see `field_get_insts`), interning the key.
fn field_get(b: &mut FnBuilder, h: u64, key: &str) -> (res: Operand)
    requires
        old(b)@.wf(),
        old(b)@.next_reg + 3 <= u64::MAX,
    ensures
        ({
            let q = old(b)@.next_reg;
            &&& res@ == OperandV::Reg((q + 2) as u64)
            &&& final(b)@ == (FnBuilderV {
                next_reg: q + 3,
                strings: intern_strings(old(b)@.strings, key@),
                ..old(b)@
            }).append_cur(field_get_insts(intern_index(old(b)@.strings, key@), h as int, q))
        }),
        final(b)@.wf(),
{
    let ghost pre = b@;
    let idx = b.intern(key);
    assert(b@ == (FnBuilderV { strings: intern_strings(pre.strings, key@), ..pre }));
    assert(idx == intern_index(pre.strings, key@));
    let q = b.reserve_regs(3);
    let a = vec![(Ty::I64, Operand::Reg(h)), (Ty::I64, Operand::Reg(q + 1))];
    assert(args_view(a@) =~= seq![(Ty::I64, OperandV::Reg(h)), (Ty::I64, OperandV::Reg((q + 1) as u64))]);
    let insts = vec![
        Inst::Load { dest: q, ty: Ty::Double, ptr: Operand::StrHandle(idx) },
        Inst::UnboxToI64 { dest: q + 1, val: Operand::Reg(q) },
        call_inst(Some(q + 2), Ty::Double, "js_object_get_field_by_name_f64", a),
    ];
    assert(insts_view(insts@) =~= field_get_insts(idx as int, h as int, q as int));
    b.push_all(insts);
    Operand::Reg(q + 2)
}

/// The view of an optional operand.
pub open spec fn opt_operand_view(o: Option<Operand>) -> Option<OperandV> {
    match o {
        Some(v) => Some(v@),
        None => None,
    }
}

/// Reads a `Response`'s init slots off the runtime options object `o`
/// (see `runtime_init`).
fn emit_runtime_init(b: &mut FnBuilder, o: &Operand) -> (res: (Operand, Operand, Operand))
    requires
        old(b)@.wf(),
        old(b)@.next_reg + 11 <= u64::MAX,
    ensures
        ({
            let (strings, s) = runtime_init(old(b)@.strings, o@, old(b)@.next_reg);
            &&& final(b)@ == (FnBuilderV { next_reg: s.next, strings, ..old(b)@ }).append_cur(s.insts)
            &&& res.0@ == s.first
            &&& res.1@ == s.second
            &&& res.2@ == s.headers
        }),
        final(b)@.wf(),
{
    let ghost m0 = b@;
    let ghost ov = o@;
    let h = b.fresh_reg();
    b.push(Inst::UnboxToI64 { dest: h, val: copy_operand(o) });
    let ghost a1 = seq![InstV::UnboxToI64 { dest: h, val: ov }];
    let ghost m1 = b@;
    let st = field_get(b, h, "status");
    let ghost m2 = b@;
    let tb = field_get(b, h, "statusText");
    let ghost m3 = b@;
    let ghost tbv = tb@;
    let tp = b.fresh_reg();
    b.push(str_ptr_inst(tp, tb));
    let ghost m4 = b@;
    let hd = field_get(b, h, "headers");
    proof {
        let s0 = m0.strings;
        let s1 = intern_strings(s0, "status"@);
        let s2 = intern_strings(s1, "statusText"@);
        let a2 = field_get_insts(intern_index(s0, "status"@), h as int, h + 1);
        let a3 = field_get_insts(intern_index(s1, "statusText"@), h as int, h + 4);
        let a4 = seq![str_ptr_call(h + 7, tbv)];
        let a5 = field_get_insts(intern_index(s2, "headers"@), h as int, h + 8);
        lemma_append_cur_twice(m0, a1, a2);
        lemma_append_cur_twice(m0, a1 + a2, a3);
        lemma_append_cur_twice(m0, a1 + a2 + a3, a4);
        lemma_append_cur_twice(m0, a1 + a2 + a3 + a4, a5);
        assert(m1.blocks == m0.append_cur(a1).blocks);
        assert(m2.blocks == m0.append_cur(a1 + a2).blocks);
        assert(m3.blocks == m0.append_cur(a1 + a2 + a3).blocks);
        assert(m4.blocks == m0.append_cur(a1 + a2 + a3 + a4).blocks);
        assert(b@.blocks == m0.append_cur(a1 + a2 + a3 + a4 + a5).blocks);
    }
    (st, Operand::Reg(tp), hd)
}

/// Emits the init slots of a construction whose init argument is `init`
/// (see `init_part`).
fn emit_init(b: &mut FnBuilder, k: FetchCtor, init: &InitArg) -> (res: (Operand, Operand, Operand))
    requires
        old(b)@.wf(),
        old(b)@.next_reg + 11 + init_arg_regs(k, init@) <= u64::MAX,
    ensures
        ({
            let (strings, s) = init_part(k, old(b)@.strings, old(b)@.next_reg, init@);
            &&& final(b)@ == (FnBuilderV { next_reg: s.next, strings, ..old(b)@ }).append_cur(s.insts)
            &&& res.0@ == s.first
            &&& res.1@ == s.second
            &&& res.2@ == s.headers
        }),
        final(b)@.wf(),
{
    let ghost m0 = b@;
    let r = b.peek_reg();
    match init {
        InitArg::Literal(ps) => {
            let (insts, next, f, s, h) = init_slots_exec(k, ps, r);
            proof {
                lemma_slots_next(k, init_props_view(ps@), r as int);
            }
            b.reserve_regs(next - r);
            b.push_all(insts);
            (f, s, h)
        },
        InitArg::Value(o) => match k {
            FetchCtor::Response => emit_runtime_init(b, o),
            FetchCtor::Request => {
                proof {
                    lemma_append_cur_empty(m0);
                }
                (Operand::Int(0), Operand::Int(0), Operand::Zero)
            },
        },
        InitArg::Absent => {
            proof {
                lemma_append_cur_empty(m0);
            }
            (
                match k {
                    FetchCtor::Response => Operand::Num(200),
                    FetchCtor::Request => Operand::Int(0),
                },
                Operand::Int(0),
                Operand::Zero,
            )
        },
    }
}

/// Lowers `new Response(lead, init)` or `new Request(lead, init)`, given
/// the lowered first argument (`None` when absent) and the init argument
/// (see `fetch_ctor_result`).
pub fn lower_new_fetch_object(b: &mut FnBuilder, k: FetchCtor, lead: Option<Operand>, init: &InitArg) -> (res: Operand)
    requires
        old(b)@.wf(),
        old(b)@.next_reg + 13 + init_arg_regs(k, init@) <= u64::MAX,
    ensures
        ({
            let (post, h) = fetch_ctor_result(k, old(b)@, opt_operand_view(lead), init@);
            &&& final(b)@ == post
            &&& res@ == h
        }),
        final(b)@.wf(),
{
    let ghost pre = b@;
    let ghost lv = opt_operand_view(lead);
    let ghost head = match lv {
        Some(v) => seq![str_ptr_call(pre.next_reg, v)],
        None => Seq::<InstV>::empty(),
    };
    let lp = match lead {
        Some(v) => {
            let r = b.fresh_reg();
            b.push(str_ptr_inst(r, v));
            Operand::Reg(r)
        },
        None => Operand::Int(0),
    };
    let ghost m0 = b@;
    proof {
        if lv is None {
            lemma_append_cur_empty(pre);
        }
        assert(m0 == (FnBuilderV { next_reg: m0.next_reg, ..pre }).append_cur(head));
    }
    let (first, second, headers) = emit_init(b, k, init);
    let ghost part = init_part(k, pre.strings, m0.next_reg, init@);
    let ghost m1 = b@;
    proof {
        if let InitArgV::Literal(ps) = init@ {
            lemma_slots_next(k, ps, m0.next_reg);
        }
        lemma_append_cur_twice(pre, head, part.1.insts);
        assert(m1.blocks == pre.append_cur(head + part.1.insts).blocks);
    }
    let d = b.fresh_reg();
    let first_ty = match k {
        FetchCtor::Response => Ty::Double,
        FetchCtor::Request => Ty::I64,
    };
    let runtime = match k {
        FetchCtor::Response => "js_response_new",
        FetchCtor::Request => "js_request_new",
    };
    let ghost want = seq![(Ty::I64, lp@), (first_ty, first@), (Ty::I64, second@), (Ty::Double, headers@)];
    let a = vec![(Ty::I64, lp), (first_ty, first), (Ty::I64, second), (Ty::Double, headers)];
    assert(args_view(a@) =~= want);
    b.push(call_inst(Some(d), Ty::Double, runtime, a));
    proof {
        let call = InstV::Call { dest: Some(d), ret: Ty::Double, callee: fetch_ctor_runtime(k), args: want };
        lemma_append_cur_twice(pre, head + part.1.insts, seq![call]);
        assert(b@.blocks == pre.append_cur(head + part.1.insts + seq![call]).blocks);
    }
    Operand::Reg(d)
}

} // verus!
