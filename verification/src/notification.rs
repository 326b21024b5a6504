//! `notificationSchedule({ id, title, body, trigger })`: the options object
//! literal is checked at compile time and, by the trigger's literal
//! `type`, lowered to one flat call of the interval, calendar or location
//! scheduler.

use vstd::prelude::*;

use crate::ir::{args_view, insts_view, DeclareV, FnBuilder, FnBuilderV, Inst, InstV, JsTag, Operand, OperandV, Ty};
use crate::text::str_eq;

verus! {

/// A property of the `trigger` object literal: its key, its lowered value,
/// and its text when the value is a string literal.
#[derive(Debug)]
pub struct TriggerProp {
    pub key: String,
    pub value: Operand,
    pub literal: Option<String>,
}

/// A property of the options object literal: its key, its lowered value
/// (not used for `trigger`), and the properties of the value when it is
/// itself an inline object literal.
#[derive(Debug)]
pub struct OptionProp {
    pub key: String,
    pub value: Operand,
    pub inline: Option<Vec<TriggerProp>>,
}

/// A required field of the options.
#[derive(Copy, Clone, Debug, PartialEq, Eq, Structural)]
pub enum ScheduleField {
    Id,
    Title,
    Body,
    Trigger,
    TriggerType,
}

/// Why a `notificationSchedule` call is rejected.
#[derive(Clone, Debug, PartialEq, Eq)]
pub enum ScheduleError {
    /// It takes exactly one argument.
    ArgCount { nargs: usize },
    /// The argument is not an inline object literal.
    NotInlineObject,
    /// `trigger` is not an inline object literal.
    TriggerNotInlineObject,
    /// A required field is missing.
    MissingField(ScheduleField),
    /// `trigger.type` is not a string literal.
    TriggerTypeNotLiteral,
    /// `trigger.type` names no known trigger.
    UnknownTriggerType(String),
}

/// The kind of trigger.
#[derive(Copy, Clone, Debug, PartialEq, Eq, Structural)]
pub enum TriggerKind {
    Interval,
    Calendar,
    Location,
}

/// Whether a key's value is passed as a string pointer.
pub open spec fn is_ptr_key(k: Seq<char>) -> bool {
    k == "id"@ || k == "title"@ || k == "body"@
}

/// Whether some property has key `k`.
pub open spec fn has_key(props: Seq<OptionProp>, k: Seq<char>) -> bool {
    exists|i: int| 0 <= i < props.len() && #[trigger] props[i].key@ == k
}

/// Whether some `trigger` property's value is not an inline object.
pub open spec fn has_bad_trigger(props: Seq<OptionProp>) -> bool {
    exists|i: int| 0 <= i < props.len() && #[trigger] props[i].key@ == "trigger"@ && props[i].inline is None
}

/// The unboxing of each `id`, `title` and `body` value, in order, into
/// consecutive registers from `r`.
pub open spec fn ptr_unboxes(props: Seq<OptionProp>, r: int) -> Seq<InstV>
    decreases props.len(),
{
    if props.len() == 0 {
        Seq::empty()
    } else {
        let u = ptr_unboxes(props.drop_last(), r);
        if is_ptr_key(props.last().key@) {
            u.push(InstV::UnboxToI64 { dest: (r + u.len()) as u64, val: props.last().value@ })
        } else {
            u
        }
    }
}

/// The register holding the last `k` value's unboxing.
pub open spec fn key_reg(props: Seq<OptionProp>, k: Seq<char>, r: int) -> int
    decreases props.len(),
{
    if props.len() == 0 {
        r
    } else if props.last().key@ == k {
        r + ptr_unboxes(props.drop_last(), r).len()
    } else {
        key_reg(props.drop_last(), k, r)
    }
}

/// The properties of the last `trigger` value.
pub open spec fn last_trigger(props: Seq<OptionProp>) -> Seq<TriggerProp>
    decreases props.len(),
{
    if props.len() == 0 {
        Seq::empty()
    } else if props.last().key@ == "trigger"@ {
        match props.last().inline {
            Some(t) => t@,
            None => Seq::empty(),
        }
    } else {
        last_trigger(props.drop_last())
    }
}

/// The first `type` property of a trigger.
pub open spec fn type_prop(tp: Seq<TriggerProp>) -> Option<TriggerProp>
    decreases tp.len(),
{
    if tp.len() == 0 {
        None
    } else if tp[0].key@ == "type"@ {
        Some(tp[0])
    } else {
        type_prop(tp.drop_first())
    }
}

/// The value of the last trigger property `k`, or `default`.
pub open spec fn last_value(tp: Seq<TriggerProp>, k: Seq<char>, default: OperandV) -> OperandV
    decreases tp.len(),
{
    if tp.len() == 0 {
        default
    } else if tp.last().key@ == k {
        tp.last().value@
    } else {
        last_value(tp.drop_last(), k, default)
    }
}

/// The trigger kind a `type` literal names.
pub open spec fn trigger_kind_spec(t: Seq<char>) -> Option<TriggerKind> {
    if t == "interval"@ {
        Some(TriggerKind::Interval)
    } else if t == "calendar"@ {
        Some(TriggerKind::Calendar)
    } else if t == "location"@ {
        Some(TriggerKind::Location)
    } else {
        None
    }
}

/// The checks of `notificationSchedule(options)` with `nargs` arguments,
/// `options` being the properties of the first argument when it is an
/// inline object literal, in the order they are made: the trigger's kind
/// and properties, or the error.
pub open spec fn schedule_check(nargs: nat, options: Option<Seq<OptionProp>>) -> Result<(TriggerKind, Seq<TriggerProp>), ScheduleError> {
    if nargs != 1 {
        Err(ScheduleError::ArgCount { nargs: nargs as usize })
    } else {
        match options {
            None => Err(ScheduleError::NotInlineObject),
            Some(props) => if has_bad_trigger(props) {
                Err(ScheduleError::TriggerNotInlineObject)
            } else if !has_key(props, "id"@) {
                Err(ScheduleError::MissingField(ScheduleField::Id))
            } else if !has_key(props, "title"@) {
                Err(ScheduleError::MissingField(ScheduleField::Title))
            } else if !has_key(props, "body"@) {
                Err(ScheduleError::MissingField(ScheduleField::Body))
            } else if !has_key(props, "trigger"@) {
                Err(ScheduleError::MissingField(ScheduleField::Trigger))
            } else {
                let tp = last_trigger(props);
                match type_prop(tp) {
                    None => Err(ScheduleError::MissingField(ScheduleField::TriggerType)),
                    Some(t) => match t.literal {
                        None => Err(ScheduleError::TriggerTypeNotLiteral),
                        Some(s) => match trigger_kind_spec(s@) {
                            None => Err(ScheduleError::UnknownTriggerType(s)),
                            Some(kind) => Ok((kind, tp)),
                        },
                    },
                }
            },
        }
    }
}

/// The scheduler of a trigger kind.
pub open spec fn scheduler_name(kind: TriggerKind) -> Seq<char> {
    match kind {
        TriggerKind::Interval => "perry_system_notification_schedule_interval"@,
        TriggerKind::Calendar => "perry_system_notification_schedule_calendar"@,
        TriggerKind::Location => "perry_system_notification_schedule_location"@,
    }
}

/// The trigger arguments of a scheduler call: `seconds` and `repeats`
/// (`false` when absent), `date`, or `latitude`, `longitude` and `radius`;
/// an absent number is `0.0`.
pub open spec fn trigger_args(kind: TriggerKind, tp: Seq<TriggerProp>) -> Seq<(Ty, OperandV)> {
    match kind {
        TriggerKind::Interval => seq![
            (Ty::Double, last_value(tp, "seconds"@, OperandV::Zero)),
            (Ty::Double, last_value(tp, "repeats"@, OperandV::Tag(JsTag::False))),
        ],
        TriggerKind::Calendar => seq![(Ty::Double, last_value(tp, "date"@, OperandV::Zero))],
        TriggerKind::Location => seq![
            (Ty::Double, last_value(tp, "latitude"@, OperandV::Zero)),
            (Ty::Double, last_value(tp, "longitude"@, OperandV::Zero)),
            (Ty::Double, last_value(tp, "radius"@, OperandV::Zero)),
        ],
    }
}

/// The function state after a valid `notificationSchedule` call from
/// `pre`: the `id`, `title` and `body` values unboxed, the scheduler
/// declared, and `call void` of it with the three string pointers and the
/// trigger arguments.
pub open spec fn schedule_result(pre: FnBuilderV, props: Seq<OptionProp>, kind: TriggerKind, tp: Seq<TriggerProp>) -> FnBuilderV {
    let r = pre.next_reg;
    let u = ptr_unboxes(props, r);
    let args = seq![
        (Ty::I64, OperandV::Reg(key_reg(props, "id"@, r) as u64)),
        (Ty::I64, OperandV::Reg(key_reg(props, "title"@, r) as u64)),
        (Ty::I64, OperandV::Reg(key_reg(props, "body"@, r) as u64)),
    ] + trigger_args(kind, tp);
    let name = scheduler_name(kind);
    (FnBuilderV {
        next_reg: r + u.len(),
        declares: pre.declares.push(DeclareV { name, ret: Ty::Void, params: args.map_values(|a: (Ty, OperandV)| a.0) }),
        ..pre
    }).append_cur(u.push(InstV::Call { dest: None, ret: Ty::Void, callee: name, args }))
}

proof fn lemma_unboxes_len(props: Seq<OptionProp>, r: int)
    ensures
        ptr_unboxes(props, r).len() <= props.len(),
    decreases props.len(),
{
    if props.len() > 0 {
        lemma_unboxes_len(props.drop_last(), r);
    }
}

proof fn lemma_key_reg(props: Seq<OptionProp>, k: Seq<char>, r: int)
    requires
        is_ptr_key(k),
        has_key(props, k),
    ensures
        r <= key_reg(props, k, r) < r + ptr_unboxes(props, r).len(),
    decreases props.len(),
{
    let d = props.drop_last();
    if props.last().key@ != k {
        let i = choose|i: int| 0 <= i < props.len() && #[trigger] props[i].key@ == k;
        assert(d[i] == props[i]);
        lemma_key_reg(d, k, r);
    } else {
        lemma_unboxes_len(d, r);
    }
}

fn trigger_kind(t: &str) -> (res: Option<TriggerKind>)
    ensures
        res == trigger_kind_spec(t@),
{
    if str_eq(t, "interval") {
        Some(TriggerKind::Interval)
    } else if str_eq(t, "calendar") {
        Some(TriggerKind::Calendar)
    } else if str_eq(t, "location") {
        Some(TriggerKind::Location)
    } else {
        None
    }
}

/// The index of the first `type` property of a trigger.
fn type_index(tp: &Vec<TriggerProp>) -> (res: Option<usize>)
    ensures
        match res {
            Some(i) => i < tp@.len() && type_prop(tp@) == Some(tp@[i as int]),
            None => type_prop(tp@) is None,
        },
{
    let mut k: usize = 0;
    assert(tp@.skip(0) =~= tp@);
    while k < tp.len()
        invariant
            k <= tp@.len(),
            type_prop(tp@) == type_prop(tp@.skip(k as int)),
        decreases tp@.len() - k,
    {
        assert(tp@.skip(k as int).drop_first() =~= tp@.skip(k + 1));
        assert(tp@.skip(k as int)[0] == tp@[k as int]);
        if str_eq(tp[k].key.as_str(), "type") {
            return Some(k);
        }
        k = k + 1;
    }
    None
}

/// The value of the last trigger property `k`, or `default`.
fn last_value_exec(tp: &Vec<TriggerProp>, k: &str, default: Operand) -> (res: Operand)
    ensures
        res@ == last_value(tp@, k@, default@),
{
    let mut i: usize = tp.len();
    assert(tp@.take(tp@.len() as int) =~= tp@);
    while i > 0
        invariant
            i <= tp@.len(),
            forall|j: int| i <= j < tp@.len() ==> tp@[j].key@ != k@,
            last_value(tp@, k@, default@) == last_value(tp@.take(i as int), k@, default@),
        decreases i,
    {
        let ghost t = tp@.take(i as int);
        assert(t.drop_last() =~= tp@.take(i - 1));
        if str_eq(tp[i - 1].key.as_str(), k) {
            return crate::ir::copy_operand(&tp[i - 1].value);
        }
        i = i - 1;
    }
    default
}

/// What the scan of the options finds: the first bad `trigger`, and the
/// last `trigger`.
fn scan_options(props: &Vec<OptionProp>) -> (res: (bool, Option<usize>))
    ensures
        res.0 == has_bad_trigger(props@),
        !res.0 ==> match res.1 {
            Some(i) => i < props@.len() && props@[i as int].inline is Some && last_trigger(props@) == props@[i as int].inline->0@
                && has_key(props@, "trigger"@),
            None => !has_key(props@, "trigger"@),
        },
{
    let mut bad = false;
    let mut last: Option<usize> = None;
    let mut k: usize = 0;
    while k < props.len()
        invariant
            k <= props@.len(),
            !bad ==> !has_bad_trigger(props@.take(k as int)),
            bad ==> has_bad_trigger(props@),
            !bad ==> match last {
                Some(i) => i < k && props@[i as int].inline is Some && last_trigger(props@.take(k as int))
                    == props@[i as int].inline->0@ && has_key(props@.take(k as int), "trigger"@),
                None => !has_key(props@.take(k as int), "trigger"@),
            },
        decreases props@.len() - k,
    {
        let ghost t = props@.take(k + 1);
        assert(t.drop_last() =~= props@.take(k as int));
        assert(t.last() == props@[k as int]);
        if !bad {
            if str_eq(props[k].key.as_str(), "trigger") {
                if props[k].inline.is_none() {
                    bad = true;
                    assert(props@[k as int].key@ == "trigger"@);
                } else {
                    last = Some(k);
                    assert(t[k as int].key@ == "trigger"@);
                }
            }
            proof {
                if !bad {
                    assert forall|i: int| 0 <= i < t.len() && #[trigger] t[i].key@ == "trigger"@ implies t[i].inline
                        is Some by {
                        if i < k {
                            assert(t[i] == props@.take(k as int)[i]);
                        }
                    }
                    if props@[k as int].key@ != "trigger"@ {
                        if has_key(t, "trigger"@) {
                            let i = choose|i: int| 0 <= i < t.len() && #[trigger] t[i].key@ == "trigger"@;
                            assert(props@.take(k as int)[i] == t[i]);
                        }
                        if last is Some && has_key(props@.take(k as int), "trigger"@) {
                            let i = choose|i: int| 0 <= i < k && #[trigger] props@.take(k as int)[i].key@ == "trigger"@;
                            assert(t[i] == props@.take(k as int)[i]);
                        }
                    }
                }
            }
        }
        k = k + 1;
    }
    assert(props@.take(props@.len() as int) =~= props@);
    (bad, last)
}

/// Whether some property has key `k`.
fn has_key_exec(props: &Vec<OptionProp>, k: &str) -> (res: bool)
    ensures
        res == has_key(props@, k@),
{
    let mut i: usize = 0;
    while i < props.len()
        invariant
            i <= props@.len(),
            forall|j: int| 0 <= j < i ==> #[trigger] props@[j].key@ != k@,
        decreases props@.len() - i,
    {
        if str_eq(props[i].key.as_str(), k) {
            return true;
        }
        i = i + 1;
    }
    false
}

/// Checks `notificationSchedule(options)` with `nargs` arguments (see
/// `schedule_check`); `options` are the properties of the first argument
/// when it is an inline object literal.
pub fn check_notification_schedule(nargs: usize, options: Option<&Vec<OptionProp>>) -> (res: Result<(TriggerKind, usize), ScheduleError>)
    ensures
        match schedule_check(nargs as nat, match options { Some(p) => Some(p@), None => None }) {
            Err(e) => res == Err::<(TriggerKind, usize), ScheduleError>(e),
            Ok((kind, tp)) => (res matches Ok((k, i)) && k == kind && i < options->0@.len() && (
            options->0@[i as int].inline matches Some(t) && t@ == tp)),
        },
{
    if nargs != 1 {
        return Err(ScheduleError::ArgCount { nargs });
    }
    let props = match options {
        Some(p) => p,
        None => return Err(ScheduleError::NotInlineObject),
    };
    let (bad, last) = scan_options(props);
    if bad {
        return Err(ScheduleError::TriggerNotInlineObject);
    }
    if !has_key_exec(props, "id") {
        return Err(ScheduleError::MissingField(ScheduleField::Id));
    }
    if !has_key_exec(props, "title") {
        return Err(ScheduleError::MissingField(ScheduleField::Title));
    }
    if !has_key_exec(props, "body") {
        return Err(ScheduleError::MissingField(ScheduleField::Body));
    }
    let ti = match last {
        Some(i) => i,
        None => return Err(ScheduleError::MissingField(ScheduleField::Trigger)),
    };
    let tp = match &props[ti].inline {
        Some(t) => t,
        None => return Err(ScheduleError::TriggerNotInlineObject),
    };
    let t = match type_index(tp) {
        Some(j) => &tp[j],
        None => return Err(ScheduleError::MissingField(ScheduleField::TriggerType)),
    };
    let s = match &t.literal {
        Some(s) => s,
        None => return Err(ScheduleError::TriggerTypeNotLiteral),
    };
    match trigger_kind(s.as_str()) {
        Some(kind) => Ok((kind, ti)),
        None => Err(ScheduleError::UnknownTriggerType(s.clone())),
    }
}

/// Lowers `notificationSchedule(options)` with `nargs` arguments,
/// `options` being the properties of the first argument when it is an
/// inline object literal (their values lowered): the error of
/// `schedule_check`, with nothing emitted; otherwise the `id`, `title` and
/// `body` values unboxed to string pointers, in the order of the
/// properties, and `call void` of the trigger kind's scheduler with them
/// and the trigger's arguments (see `schedule_result`). The value of the
/// call is `0.0`.
pub fn lower_notification_schedule(b: &mut FnBuilder, nargs: usize, options: Option<&Vec<OptionProp>>) -> (res: Result<
    Operand,
    ScheduleError,
>)
    requires
        old(b)@.wf(),
        options matches Some(p) ==> old(b)@.next_reg + p@.len() <= u64::MAX,
    ensures
        final(b)@.wf(),
        match schedule_check(nargs as nat, match options { Some(p) => Some(p@), None => None }) {
            Err(e) => res == Err::<Operand, ScheduleError>(e) && final(b)@ == old(b)@,
            Ok((kind, tp)) => (res matches Ok(o) && o@ == OperandV::Zero) && final(b)@ == schedule_result(
                old(b)@,
                options->0@,
                kind,
                tp,
            ),
        },
{
    let (kind, ti) = match check_notification_schedule(nargs, options) {
        Ok(x) => x,
        Err(e) => return Err(e),
    };
    let props = options.unwrap();
    let ghost pv = props@;
    let r = b.peek_reg();
    let mut insts: Vec<Inst> = Vec::new();
    let mut j: u64 = 0;
    let mut id_reg = r;
    let mut title_reg = r;
    let mut body_reg = r;
    let mut k: usize = 0;
    while k < props.len()
        invariant
            k <= pv.len(),
            pv == props@,
            r + pv.len() <= u64::MAX,
            insts_view(insts@) == ptr_unboxes(pv.take(k as int), r as int),
            j == insts@.len(),
            j <= k,
            id_reg == key_reg(pv.take(k as int), "id"@, r as int),
            title_reg == key_reg(pv.take(k as int), "title"@, r as int),
            body_reg == key_reg(pv.take(k as int), "body"@, r as int),
        decreases pv.len() - k,
    {
        let ghost t = pv.take(k + 1);
        assert(t.drop_last() =~= pv.take(k as int));
        assert(t.last() == pv[k as int]);
        let key = props[k].key.as_str();
        let is_id = str_eq(key, "id");
        let is_title = str_eq(key, "title");
        let is_body = str_eq(key, "body");
        if is_id || is_title || is_body {
            let ghost before = insts@;
            insts.push(Inst::UnboxToI64 { dest: r + j, val: crate::ir::copy_operand(&props[k].value) });
            assert(insts_view(insts@) =~= insts_view(before).push(insts_view(insts@).last()));
            if is_id {
                id_reg = r + j;
            }
            if is_title {
                title_reg = r + j;
            }
            if is_body {
                body_reg = r + j;
            }
            j = j + 1;
        }
        k = k + 1;
    }
    assert(pv.take(pv.len() as int) =~= pv);
    let tp = match &props[ti].inline {
        Some(t) => t,
        None => return Err(ScheduleError::TriggerNotInlineObject),
    };
    let ghost head = seq![
        (Ty::I64, OperandV::Reg(id_reg)),
        (Ty::I64, OperandV::Reg(title_reg)),
        (Ty::I64, OperandV::Reg(body_reg)),
    ];
    let (name, args, params) = match kind {
        TriggerKind::Interval => {
            let seconds = last_value_exec(tp, "seconds", Operand::Zero);
            let repeats = last_value_exec(tp, "repeats", Operand::Tag(JsTag::False));
            let ghost sv = seconds@;
            let ghost rv = repeats@;
            let a = vec![
                (Ty::I64, Operand::Reg(id_reg)),
                (Ty::I64, Operand::Reg(title_reg)),
                (Ty::I64, Operand::Reg(body_reg)),
                (Ty::Double, seconds),
                (Ty::Double, repeats),
            ];
            assert(args_view(a@) =~= head + seq![(Ty::Double, sv), (Ty::Double, rv)]);
            ("perry_system_notification_schedule_interval", a, vec![Ty::I64, Ty::I64, Ty::I64, Ty::Double, Ty::Double])
        },
        TriggerKind::Calendar => {
            let date = last_value_exec(tp, "date", Operand::Zero);
            let ghost dv = date@;
            let a = vec![
                (Ty::I64, Operand::Reg(id_reg)),
                (Ty::I64, Operand::Reg(title_reg)),
                (Ty::I64, Operand::Reg(body_reg)),
                (Ty::Double, date),
            ];
            assert(args_view(a@) =~= head + seq![(Ty::Double, dv)]);
            ("perry_system_notification_schedule_calendar", a, vec![Ty::I64, Ty::I64, Ty::I64, Ty::Double])
        },
        TriggerKind::Location => {
            let lat = last_value_exec(tp, "latitude", Operand::Zero);
            let lon = last_value_exec(tp, "longitude", Operand::Zero);
            let radius = last_value_exec(tp, "radius", Operand::Zero);
            let ghost (av, ov, dv) = (lat@, lon@, radius@);
            let a = vec![
                (Ty::I64, Operand::Reg(id_reg)),
                (Ty::I64, Operand::Reg(title_reg)),
                (Ty::I64, Operand::Reg(body_reg)),
                (Ty::Double, lat),
                (Ty::Double, lon),
                (Ty::Double, radius),
            ];
            assert(args_view(a@) =~= head + seq![(Ty::Double, av), (Ty::Double, ov), (Ty::Double, dv)]);
            (
                "perry_system_notification_schedule_location",
                a,
                vec![Ty::I64, Ty::I64, Ty::I64, Ty::Double, Ty::Double, Ty::Double],
            )
        },
    };
    let ghost av = args_view(args@);
    assert(av == head + trigger_args(kind, tp@));
    assert(params@ =~= av.map_values(|a: (Ty, OperandV)| a.0));
    assert(name@ == scheduler_name(kind));
    b.reserve_regs(j);
    b.declare(name, Ty::Void, params);
    let ghost u = insts_view(insts@);
    insts.push(Inst::Call { dest: None, ret: Ty::Void, callee: String::from_str(name), args });
    assert(insts_view(insts@) =~= u.push(InstV::Call { dest: None, ret: Ty::Void, callee: name@, args: av }));
    b.push_all(insts);
    Ok(Operand::Zero)
}

} // verus!
