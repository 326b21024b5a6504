//! Calls of native library functions (`perry.nativeLibrary` packages, Bloom,
//! ...) through the C ABI: how each argument is passed, and how the result
//! comes back, as decided by the FFI manifest (`ffi_signatures`) and the
//! HIR's declared return type.

use vstd::prelude::*;
use vstd::string::StringSliceAdditionalSpecFns;

use crate::ir::{args_view, copy_operand, insts_view, operands_view, DeclareV, FnBuilder, FnBuilderV, Inst, InstV, JsTag, Operand, OperandV, Ty};
use crate::text::str_eq;

verus! {

/// The four flags the manifest's `returns` field sets on its own:
/// `(returns_i64_str, returns_string, returns_i64, returns_void)`.
/// `"i64_str"`, `"string"`/`"ptr"`, `"i64"` and `"void"` are mutually
/// exclusive.
pub open spec fn manifest_return_flags_spec(manifest_ret: Option<Seq<char>>) -> (bool, bool, bool, bool) {
    match manifest_ret {
        Some(r) => (r == "i64_str"@, r == "string"@ || r == "ptr"@, r == "i64"@, r == "void"@),
        None => (false, false, false, false),
    }
}

/// The flags set by the manifest's `returns` field alone.
pub fn manifest_return_flags(manifest_ret: Option<&str>) -> (res: (bool, bool, bool, bool))
    ensures
        res == manifest_return_flags_spec(match manifest_ret {
            Some(r) => Some(r@),
            None => None,
        }),
{
    match manifest_ret {
        Some(r) => (str_eq(r, "i64_str"), str_eq(r, "string") || str_eq(r, "ptr"), str_eq(r, "i64"), str_eq(r, "void")),
        None => (false, false, false, false),
    }
}

/// At most one of the manifest flags is set.
pub proof fn law_manifest_flags_exclusive(manifest_ret: Option<Seq<char>>)
    ensures
        ({
            let (a, b, c, d) = manifest_return_flags_spec(manifest_ret);
            &&& !(a && b)
            &&& !(a && c)
            &&& !(a && d)
            &&& !(b && c)
            &&& !(b && d)
            &&& !(c && d)
        }),
{
    reveal_strlit("i64_str");
    reveal_strlit("string");
    reveal_strlit("ptr");
    reveal_strlit("i64");
    reveal_strlit("void");
    assert("ptr"@[0] != "i64"@[0]);
    assert("i64_str"@.len() != "string"@.len());
    assert("i64_str"@.len() != "ptr"@.len());
    assert("i64_str"@.len() != "i64"@.len());
    assert("i64_str"@.len() != "void"@.len());
    assert("string"@.len() != "i64"@.len());
    assert("string"@.len() != "void"@.len());
    assert("ptr"@.len() != "void"@.len());
    assert("i64"@.len() != "void"@.len());
}

/// The HIR's declared return type of an extern function, as far as the
/// return ABI depends on it.
#[derive(Copy, Clone, Debug, PartialEq, Eq, Structural)]
pub enum HirReturn {
    String,
    Void,
    Other,
}

/// How a native function's result comes back.
#[derive(Copy, Clone, Debug, PartialEq, Eq, Structural)]
pub enum FfiReturn {
    /// Declared `void`; the call yields `undefined`.
    Void,
    /// Declared `i64` holding a `*StringHeader`: NaN-boxed as a string.
    I64Str,
    /// Declared `ptr` (`*const u8`): `ptrtoint`, then NaN-boxed as a string.
    Str,
    /// Declared `i64`: `sitofp` to a JS number.
    I64,
    /// Declared `double`: used as is.
    Double,
}

/// Whether `needle`'s bytes occur in `hay`'s bytes.
pub open spec fn bytes_contain(hay: Seq<u8>, needle: Seq<u8>) -> bool {
    exists|i: int| 0 <= i && i + needle.len() <= hay.len() && #[trigger] hay.subrange(i, i + needle.len()) == needle
}

/// Whether `needle` occurs in `hay`.
pub fn str_contains(hay: &str, needle: &str) -> (res: bool)
    ensures
        res == bytes_contain(hay.spec_bytes(), needle.spec_bytes()),
{
    let h = hay.as_bytes();
    let n = needle.as_bytes();
    if n.len() == 0 {
        proof {
            assert(h@.subrange(0int, 0int + n@.len()) =~= n@);
        }
        return true;
    }
    if n.len() > h.len() {
        proof {
            assert forall|i: int| 0 <= i && i + n@.len() <= h@.len() implies #[trigger] h@.subrange(i, i + n@.len()) != n@ by {}
        }
        return false;
    }
    let hl = h.len();
    let last = hl - n.len();
    let mut i: usize = 0;
    while i <= last
        invariant
            h@ == hay.spec_bytes(),
            n@ == needle.spec_bytes(),
            last == h@.len() - n@.len(),
            n@.len() >= 1,
            hl == h@.len(),
            i <= last + 1,
            forall|k: int| 0 <= k < i ==> #[trigger] h@.subrange(k, k + n@.len()) != n@,
        decreases last + 1 - i,
    {
        let mut j: usize = 0;
        let mut same = true;
        while j < n.len()
            invariant
                h@ == hay.spec_bytes(),
                n@ == needle.spec_bytes(),
                i <= last,
                last == h@.len() - n@.len(),
                i + n@.len() <= h@.len(),
                hl == h@.len(),
                j <= n@.len(),
                same == forall|k: int| 0 <= k < j ==> h@[i + k] == n@[k],
            decreases n@.len() - j,
        {
            if h[i + j] != n[j] {
                same = false;
            }
            j = j + 1;
        }
        if same {
            proof {
                assert(h@.subrange(i as int, i + n@.len()) =~= n@);
            }
            return true;
        }
        proof {
            let k0 = choose|k: int| 0 <= k < n@.len() && h@[i + k] != n@[k];
            assert(h@.subrange(i as int, i + n@.len())[k0] != n@[k0]);
        }
        i = i + 1;
    }
    false
}

/// How the result of a call of native function `name` comes back. The
/// manifest's `returns` field decides first; without one, the HIR return
/// type decides, and a function taking a string (or array) argument whose
/// name mentions `read_file`, `clipboard_text` or `file_dialog` returns a
/// string. The checks go `void`, then `i64_str`, then string, then `i64`.
pub open spec fn ffi_return_spec(
    manifest_ret: Option<Seq<char>>,
    hir_return: HirReturn,
    has_string_args: bool,
    name: Seq<u8>,
) -> FfiReturn {
    let (i64_str, string, i64, void) = manifest_return_flags_spec(manifest_ret);
    let returns_string = string || hir_return == HirReturn::String || (manifest_ret is None && has_string_args && (
    bytes_contain(name, "read_file".spec_bytes()) || bytes_contain(name, "clipboard_text".spec_bytes())
        || bytes_contain(name, "file_dialog".spec_bytes())));
    let returns_void = void || (manifest_ret is None && hir_return == HirReturn::Void);
    if returns_void {
        FfiReturn::Void
    } else if i64_str {
        FfiReturn::I64Str
    } else if returns_string {
        FfiReturn::Str
    } else if i64 {
        FfiReturn::I64
    } else {
        FfiReturn::Double
    }
}

/// Decides how the result of a call of native function `name` comes back.
pub fn ffi_return(manifest_ret: Option<&str>, hir_return: HirReturn, has_string_args: bool, name: &str) -> (res:
    FfiReturn)
    ensures
        res == ffi_return_spec(
            match manifest_ret {
                Some(r) => Some(r@),
                None => None,
            },
            hir_return,
            has_string_args,
            name.spec_bytes(),
        ),
{
    let (returns_i64_str, string, returns_i64, void) = manifest_return_flags(manifest_ret);
    let name_hint = manifest_ret.is_none() && has_string_args && (str_contains(name, "read_file") || str_contains(
        name,
        "clipboard_text",
    ) || str_contains(name, "file_dialog"));
    let returns_string = string || hir_return == HirReturn::String || name_hint;
    let returns_void = void || (manifest_ret.is_none() && hir_return == HirReturn::Void);
    if returns_void {
        FfiReturn::Void
    } else if returns_i64_str {
        FfiReturn::I64Str
    } else if returns_string {
        FfiReturn::Str
    } else if returns_i64 {
        FfiReturn::I64
    } else {
        FfiReturn::Double
    }
}

/// The manifest's `returns` field takes precedence over the HIR return type
/// and the name heuristic: `"void"`, `"i64_str"`, `"string"`/`"ptr"` decide
/// the result kind on their own, and `"i64"` does unless the HIR declares a
/// string return.
pub proof fn law_manifest_return_precedence(r: Seq<char>, hir_return: HirReturn, has_string_args: bool, name: Seq<u8>)
    ensures
        r == "void"@ ==> ffi_return_spec(Some(r), hir_return, has_string_args, name) == FfiReturn::Void,
        r == "i64_str"@ ==> ffi_return_spec(Some(r), hir_return, has_string_args, name) == FfiReturn::I64Str,
        r == "string"@ || r == "ptr"@ ==> ffi_return_spec(Some(r), hir_return, has_string_args, name)
            == FfiReturn::Str,
        r == "i64"@ && hir_return != HirReturn::String ==> ffi_return_spec(Some(r), hir_return, has_string_args, name)
            == FfiReturn::I64,
{
    law_manifest_flags_exclusive(Some(r));
}

/// The LLVM return type each result kind is declared with.
pub open spec fn ffi_return_ty(r: FfiReturn) -> Ty {
    match r {
        FfiReturn::Void => Ty::Void,
        FfiReturn::I64Str => Ty::I64,
        FfiReturn::Str => Ty::Ptr,
        FfiReturn::I64 => Ty::I64,
        FfiReturn::Double => Ty::Double,
    }
}

/// How one argument of a native call is passed.
#[derive(Copy, Clone, Debug, PartialEq, Eq, Structural)]
pub enum FfiArg {
    /// A string: its raw `*const u8` (`js_get_string_pointer_unified`,
    /// `inttoptr`), passed as `ptr` so it lands in an integer register.
    StringPtr,
    /// An array: a pointer to its inline f64 data (past the 8-byte header).
    ArrayData,
    /// The manifest declares the parameter `i64`: `fptosi` of the number.
    I64,
    /// Anything else: the NaN-boxed `double` as is.
    Double,
}

/// How an argument is passed: strings, then arrays, then what the manifest
/// declares, then `double`.
pub open spec fn ffi_arg_spec(is_string: bool, is_array: bool, manifest_kind: Option<Seq<char>>) -> FfiArg {
    if is_string {
        FfiArg::StringPtr
    } else if is_array {
        FfiArg::ArrayData
    } else if manifest_kind == Some("i64"@) {
        FfiArg::I64
    } else {
        FfiArg::Double
    }
}

/// Decides how one argument of a native call is passed.
pub fn ffi_arg(is_string: bool, is_array: bool, manifest_kind: Option<&str>) -> (res: FfiArg)
    ensures
        res == ffi_arg_spec(
            is_string,
            is_array,
            match manifest_kind {
                Some(k) => Some(k@),
                None => None,
            },
        ),
{
    if is_string {
        FfiArg::StringPtr
    } else if is_array {
        FfiArg::ArrayData
    } else {
        match manifest_kind {
            Some(k) => if str_eq(k, "i64") {
                FfiArg::I64
            } else {
                FfiArg::Double
            },
            None => FfiArg::Double,
        }
    }
}

/// The LLVM type an argument is passed as.
pub open spec fn ffi_arg_ty(a: FfiArg) -> Ty {
    match a {
        FfiArg::StringPtr => Ty::Ptr,
        FfiArg::ArrayData => Ty::Ptr,
        FfiArg::I64 => Ty::I64,
        FfiArg::Double => Ty::Double,
    }
}

/// The LLVM type an argument is passed as.
pub fn ffi_arg_type(a: FfiArg) -> (t: Ty)
    ensures
        t == ffi_arg_ty(a),
{
    match a {
        FfiArg::StringPtr => Ty::Ptr,
        FfiArg::ArrayData => Ty::Ptr,
        FfiArg::I64 => Ty::I64,
        FfiArg::Double => Ty::Double,
    }
}

/// Whether any argument is passed as `ptr` (a string or an array).
pub fn has_pointer_args(args: &Vec<FfiArg>) -> (res: bool)
    ensures
        res == exists|i: int| 0 <= i < args@.len() && ffi_arg_ty(#[trigger] args@[i]) == Ty::Ptr,
{
    let mut i: usize = 0;
    while i < args.len()
        invariant
            i <= args@.len(),
            forall|k: int| 0 <= k < i ==> ffi_arg_ty(#[trigger] args@[k]) != Ty::Ptr,
        decreases args@.len() - i,
    {
        if ffi_arg_type(args[i]) == Ty::Ptr {
            return true;
        }
        i = i + 1;
    }
    false
}

/// The conversion of lowered argument `v` passed as `k`, from register
/// `r`: the instructions, the typed argument and the next free register.
/// A string's raw pointer comes from `js_get_string_pointer_unified`, then
/// `inttoptr`; an array's data lies 8 bytes past its unboxed header; an
/// `i64` parameter takes `fptosi` of the number; a `double` is passed as
/// it is.
pub open spec fn ffi_arg_insts(k: FfiArg, v: OperandV, r: int) -> (Seq<InstV>, (Ty, OperandV), int) {
    match k {
        FfiArg::StringPtr => (
            seq![
                InstV::Call {
                    dest: Some(r as u64),
                    ret: Ty::I64,
                    callee: "js_get_string_pointer_unified"@,
                    args: seq![(Ty::Double, v)],
                },
                InstV::IntToPtr { dest: (r + 1) as u64, val: OperandV::Reg(r as u64) },
            ],
            (Ty::Ptr, OperandV::Reg((r + 1) as u64)),
            r + 2,
        ),
        FfiArg::ArrayData => (
            seq![
                InstV::UnboxToI64 { dest: r as u64, val: v },
                InstV::IntToPtr { dest: (r + 1) as u64, val: OperandV::Reg(r as u64) },
                InstV::Gep { dest: (r + 2) as u64, elem: Ty::I8, base: OperandV::Reg((r + 1) as u64), index: 8 },
            ],
            (Ty::Ptr, OperandV::Reg((r + 2) as u64)),
            r + 3,
        ),
        FfiArg::I64 => (
            seq![InstV::Fptosi { dest: r as u64, to: Ty::I64, val: v }],
            (Ty::I64, OperandV::Reg(r as u64)),
            r + 1,
        ),
        FfiArg::Double => (Seq::empty(), (Ty::Double, v), r),
    }
}

/// The conversions of all arguments, in order, from register `r` (see
/// `ffi_arg_insts`).
pub open spec fn ffi_args_insts(kinds: Seq<FfiArg>, vals: Seq<OperandV>, r: int) -> (Seq<InstV>, Seq<(Ty, OperandV)>, int)
    decreases kinds.len(),
{
    if kinds.len() == 0 {
        (Seq::empty(), Seq::empty(), r)
    } else {
        let (pi, pa, q) = ffi_args_insts(kinds.drop_last(), vals, r);
        let (i, a, q2) = ffi_arg_insts(kinds.last(), vals[kinds.len() - 1], q);
        (pi + i, pa.push(a), q2)
    }
}

/// The call of native function `name` with `args` and the conversion of
/// its result, from register `r`: `void` yields `undefined`; an `i64`
/// string pointer is NaN-boxed as a string; a `ptr` goes through
/// `ptrtoint` first; an `i64` becomes a number by `sitofp`; a `double` is
/// the value. The instructions, the value and the next free register.
pub open spec fn ffi_ret_insts(ret: FfiReturn, name: Seq<char>, args: Seq<(Ty, OperandV)>, r: int) -> (
    Seq<InstV>,
    OperandV,
    int,
) {
    let d0 = r as u64;
    let d1 = (r + 1) as u64;
    match ret {
        FfiReturn::Void => (
            seq![InstV::Call { dest: None, ret: Ty::Void, callee: name, args }],
            OperandV::Tag(JsTag::Undefined),
            r,
        ),
        FfiReturn::I64Str => (
            seq![
                InstV::Call { dest: Some(d0), ret: Ty::I64, callee: name, args },
                InstV::NanboxString { dest: d1, val: OperandV::Reg(d0) },
            ],
            OperandV::Reg(d1),
            r + 2,
        ),
        FfiReturn::Str => (
            seq![
                InstV::Call { dest: Some(d0), ret: Ty::Ptr, callee: name, args },
                InstV::PtrToInt { dest: d1, val: OperandV::Reg(d0) },
                InstV::NanboxString { dest: (r + 2) as u64, val: OperandV::Reg(d1) },
            ],
            OperandV::Reg((r + 2) as u64),
            r + 3,
        ),
        FfiReturn::I64 => (
            seq![
                InstV::Call { dest: Some(d0), ret: Ty::I64, callee: name, args },
                InstV::Sitofp { dest: d1, from: Ty::I64, val: OperandV::Reg(d0) },
            ],
            OperandV::Reg(d1),
            r + 2,
        ),
        FfiReturn::Double => (
            seq![InstV::Call { dest: Some(d0), ret: Ty::Double, callee: name, args }],
            OperandV::Reg(d0),
            r + 1,
        ),
    }
}

/// The function state and value after a call of native function `name`
/// from `pre`: the arguments converted per `kinds` (see `ffi_args_insts`),
/// the function declared with the result kind's type and the arguments'
/// types, then called, and its result converted (see `ffi_ret_insts`).
pub open spec fn ffi_call_result(
    pre: FnBuilderV,
    name: Seq<char>,
    kinds: Seq<FfiArg>,
    vals: Seq<OperandV>,
    ret: FfiReturn,
) -> (FnBuilderV, OperandV) {
    let (ai, args, q) = ffi_args_insts(kinds, vals, pre.next_reg);
    let (ri, v, q2) = ffi_ret_insts(ret, name, args, q);
    (
        (FnBuilderV {
            next_reg: q2,
            declares: pre.declares.push(
                DeclareV { name, ret: ffi_return_ty(ret), params: args.map_values(|a: (Ty, OperandV)| a.0) },
            ),
            ..pre
        }).append_cur(ai + ri),
        v,
    )
}

proof fn lemma_ffi_args_regs(kinds: Seq<FfiArg>, vals: Seq<OperandV>, r: int)
    ensures
        r <= ffi_args_insts(kinds, vals, r).2 <= r + 3 * kinds.len(),
        ffi_args_insts(kinds, vals, r).1.len() == kinds.len(),
    decreases kinds.len(),
{
    if kinds.len() > 0 {
        lemma_ffi_args_regs(kinds.drop_last(), vals, r);
    }
}

fn ffi_arg_exec(k: FfiArg, v: Operand, r: u64) -> (res: (Vec<Inst>, (Ty, Operand), u64))
    requires
        r + 3 <= u64::MAX,
    ensures
        ({
            let (i, a, q) = ffi_arg_insts(k, v@, r as int);
            &&& insts_view(res.0@) == i
            &&& (res.1.0, res.1.1@) == a
            &&& res.2 == q
        }),
{
    let ghost vv = v@;
    match k {
        FfiArg::StringPtr => {
            let a = vec![(Ty::Double, v)];
            assert(args_view(a@) =~= seq![(Ty::Double, vv)]);
            let insts = vec![
                Inst::Call {
                    dest: Some(r),
                    ret: Ty::I64,
                    callee: String::from_str("js_get_string_pointer_unified"),
                    args: a,
                },
                Inst::IntToPtr { dest: r + 1, val: Operand::Reg(r) },
            ];
            assert(insts_view(insts@) =~= ffi_arg_insts(k, vv, r as int).0);
            (insts, (Ty::Ptr, Operand::Reg(r + 1)), r + 2)
        },
        FfiArg::ArrayData => {
            let insts = vec![
                Inst::UnboxToI64 { dest: r, val: v },
                Inst::IntToPtr { dest: r + 1, val: Operand::Reg(r) },
                Inst::Gep { dest: r + 2, elem: Ty::I8, base: Operand::Reg(r + 1), index: 8 },
            ];
            assert(insts_view(insts@) =~= ffi_arg_insts(k, vv, r as int).0);
            (insts, (Ty::Ptr, Operand::Reg(r + 2)), r + 3)
        },
        FfiArg::I64 => {
            let insts = vec![Inst::Fptosi { dest: r, to: Ty::I64, val: v }];
            assert(insts_view(insts@) =~= ffi_arg_insts(k, vv, r as int).0);
            (insts, (Ty::I64, Operand::Reg(r)), r + 1)
        },
        FfiArg::Double => {
            let insts: Vec<Inst> = Vec::new();
            assert(insts_view(insts@) =~= Seq::<InstV>::empty());
            (insts, (Ty::Double, v), r)
        },
    }
}

fn ffi_ret_exec(ret: FfiReturn, name: &str, args: Vec<(Ty, Operand)>, r: u64) -> (res: (Vec<Inst>, Operand, u64))
    requires
        r + 3 <= u64::MAX,
    ensures
        ({
            let (i, v, q) = ffi_ret_insts(ret, name@, args_view(args@), r as int);
            &&& insts_view(res.0@) == i
            &&& res.1@ == v
            &&& res.2 == q
        }),
{
    let ghost av = args_view(args@);
    let (insts, v, q) = match ret {
        FfiReturn::Void => (
            vec![Inst::Call { dest: None, ret: Ty::Void, callee: String::from_str(name), args }],
            Operand::Tag(JsTag::Undefined),
            r,
        ),
        FfiReturn::I64Str => (
            vec![
                Inst::Call { dest: Some(r), ret: Ty::I64, callee: String::from_str(name), args },
                Inst::NanboxString { dest: r + 1, val: Operand::Reg(r) },
            ],
            Operand::Reg(r + 1),
            r + 2,
        ),
        FfiReturn::Str => (
            vec![
                Inst::Call { dest: Some(r), ret: Ty::Ptr, callee: String::from_str(name), args },
                Inst::PtrToInt { dest: r + 1, val: Operand::Reg(r) },
                Inst::NanboxString { dest: r + 2, val: Operand::Reg(r + 1) },
            ],
            Operand::Reg(r + 2),
            r + 3,
        ),
        FfiReturn::I64 => (
            vec![
                Inst::Call { dest: Some(r), ret: Ty::I64, callee: String::from_str(name), args },
                Inst::Sitofp { dest: r + 1, from: Ty::I64, val: Operand::Reg(r) },
            ],
            Operand::Reg(r + 1),
            r + 2,
        ),
        FfiReturn::Double => (
            vec![Inst::Call { dest: Some(r), ret: Ty::Double, callee: String::from_str(name), args }],
            Operand::Reg(r),
            r + 1,
        ),
    };
    assert(insts_view(insts@) =~= ffi_ret_insts(ret, name@, av, r as int).0);
    (insts, v, q)
}

/// Calls native function `name` through the C ABI (see
/// `ffi_call_result`): `kinds` says how each lowered argument is passed,
/// `ret` how the result comes back.
pub fn emit_ffi_call(b: &mut FnBuilder, name: &str, kinds: &Vec<FfiArg>, lowered: &Vec<Operand>, ret: FfiReturn) -> (res:
    Operand)
    requires
        old(b)@.wf(),
        kinds@.len() == lowered@.len(),
        old(b)@.next_reg + 3 * lowered@.len() + 3 <= u64::MAX,
    ensures
        ({
            let (post, v) = ffi_call_result(old(b)@, name@, kinds@, operands_view(lowered@), ret);
            &&& final(b)@ == post
            &&& res@ == v
        }),
        final(b)@.wf(),
{
    let ghost pre = b@;
    let ghost vals = operands_view(lowered@);
    let r = b.peek_reg();
    let mut insts: Vec<Inst> = Vec::new();
    let mut args: Vec<(Ty, Operand)> = Vec::new();
    let mut params: Vec<Ty> = Vec::new();
    let mut q = r;
    let mut i: usize = 0;
    assert(kinds@.take(0) =~= Seq::<FfiArg>::empty());
    assert(insts_view(insts@) =~= Seq::<InstV>::empty());
    while i < kinds.len()
        invariant
            i <= kinds@.len(),
            kinds@.len() == lowered@.len(),
            vals == operands_view(lowered@),
            r + 3 * lowered@.len() + 3 <= u64::MAX,
            ({
                let (ai, av, aq) = ffi_args_insts(kinds@.take(i as int), vals, r as int);
                &&& insts_view(insts@) == ai
                &&& args_view(args@) == av
                &&& q == aq
            }),
            params@ == args_view(args@).map_values(|a: (Ty, OperandV)| a.0),
            r <= q <= r + 3 * i,
        decreases kinds@.len() - i,
    {
        let ghost t = kinds@.take(i + 1);
        proof {
            assert(t.drop_last() =~= kinds@.take(i as int));
            assert(t.last() == kinds@[i as int]);
        }
        let ghost before_i = insts@;
        let ghost before_a = args@;
        let v = copy_operand(&lowered[i]);
        assert(v@ == vals[i as int]);
        let (mut ci, a, q2) = ffi_arg_exec(kinds[i], v, q);
        let ghost civ = ci@;
        let ghost aview = (a.0, a.1@);
        insts.append(&mut ci);
        params.push(a.0);
        args.push(a);
        assert(insts_view(insts@) =~= insts_view(before_i) + insts_view(civ));
        assert(args_view(args@) =~= args_view(before_a).push(aview));
        assert(params@ =~= args_view(args@).map_values(|a: (Ty, OperandV)| a.0));
        q = q2;
        i = i + 1;
    }
    assert(kinds@.take(kinds@.len() as int) =~= kinds@);
    let ghost av = args_view(args@);
    b.declare(name, ffi_return_ty_exec(ret), params);
    let (mut ri, v, q3) = ffi_ret_exec(ret, name, args, q);
    let ghost riv = ri@;
    let ghost ai = insts@;
    insts.append(&mut ri);
    assert(insts_view(insts@) =~= insts_view(ai) + insts_view(riv));
    b.reserve_regs(q3 - r);
    b.push_all(insts);
    v
}

fn ffi_return_ty_exec(r: FfiReturn) -> (t: Ty)
    ensures
        t == ffi_return_ty(r),
{
    match r {
        FfiReturn::Void => Ty::Void,
        FfiReturn::I64Str => Ty::I64,
        FfiReturn::Str => Ty::Ptr,
        FfiReturn::I64 => Ty::I64,
        FfiReturn::Double => Ty::Double,
    }
}

/// What the compiler knows of a native call's arguments and result: for
/// each argument, whether it is statically a string and whether an array;
/// the manifest's declaration of the function, if any (its parameter kinds
/// and its `returns` field); and the HIR's declared return type.
pub struct FfiFacts {
    pub arg_is_string: Vec<bool>,
    pub arg_is_array: Vec<bool>,
    pub manifest: Option<(Vec<String>, String)>,
    pub hir_return: HirReturn,
}

/// The manifest's kind of parameter `i`, if it declares one.
pub open spec fn manifest_param(m: Option<(Vec<String>, String)>, i: int) -> Option<Seq<char>> {
    match m {
        Some((ps, _)) => if 0 <= i < ps@.len() {
            Some(ps@[i]@)
        } else {
            None
        },
        None => None,
    }
}

/// The manifest's `returns` field, if the manifest declares the function.
pub open spec fn manifest_ret(m: Option<(Vec<String>, String)>) -> Option<Seq<char>> {
    match m {
        Some((_, r)) => Some(r@),
        None => None,
    }
}

/// How each of `n` arguments is passed (see `ffi_arg_spec`).
pub open spec fn ffi_kinds(f: FfiFacts, n: nat) -> Seq<FfiArg> {
    Seq::new(n, |i: int| ffi_arg_spec(f.arg_is_string@[i], f.arg_is_array@[i], manifest_param(f.manifest, i)))
}

/// Whether some argument is passed as a pointer.
pub open spec fn any_ptr(kinds: Seq<FfiArg>) -> bool {
    exists|i: int| 0 <= i < kinds.len() && ffi_arg_ty(#[trigger] kinds[i]) == Ty::Ptr
}

/// The function state and value after calling native-library function
/// `name` with the lowered arguments `vals`: each argument passed per
/// `ffi_kinds`, the result kind decided by `ffi_return_spec` (the
/// manifest's `returns` first), then `ffi_call_result`.
pub open spec fn native_ffi_result(pre: FnBuilderV, name: Seq<char>, f: FfiFacts, vals: Seq<OperandV>) -> (FnBuilderV, OperandV) {
    let kinds = ffi_kinds(f, vals.len());
    let ret = ffi_return_spec(manifest_ret(f.manifest), f.hir_return, any_ptr(kinds), vstd::utf8::encode_utf8(name));
    ffi_call_result(pre, name, kinds, vals, ret)
}

/// Lowers a call of native-library function `name` with the lowered
/// arguments (see `native_ffi_result`).
pub fn lower_native_ffi_call(b: &mut FnBuilder, name: &str, f: &FfiFacts, lowered: &Vec<Operand>) -> (res: Operand)
    requires
        old(b)@.wf(),
        f.arg_is_string@.len() == lowered@.len(),
        f.arg_is_array@.len() == lowered@.len(),
        old(b)@.next_reg + 3 * lowered@.len() + 3 <= u64::MAX,
    ensures
        ({
            let (post, v) = native_ffi_result(old(b)@, name@, *f, operands_view(lowered@));
            &&& final(b)@ == post
            &&& res@ == v
        }),
        final(b)@.wf(),
{
    let ghost want = ffi_kinds(*f, lowered@.len());
    let mut kinds: Vec<FfiArg> = Vec::new();
    let mut i: usize = 0;
    while i < lowered.len()
        invariant
            i <= lowered@.len(),
            f.arg_is_string@.len() == lowered@.len(),
            f.arg_is_array@.len() == lowered@.len(),
            want == ffi_kinds(*f, lowered@.len()),
            kinds@ == want.take(i as int),
        decreases lowered@.len() - i,
    {
        let mk: Option<&str> = match &f.manifest {
            Some((ps, _)) => if i < ps.len() {
                Some(ps[i].as_str())
            } else {
                None
            },
            None => None,
        };
        assert(crate::text::opt_view(mk) == manifest_param(f.manifest, i as int));
        let k = ffi_arg(f.arg_is_string[i], f.arg_is_array[i], mk);
        kinds.push(k);
        assert(kinds@ =~= want.take(i + 1));
        i = i + 1;
    }
    assert(want.take(want.len() as int) =~= want);
    let has_ptr = has_pointer_args(&kinds);
    let mr: Option<&str> = match &f.manifest {
        Some((_, r)) => Some(r.as_str()),
        None => None,
    };
    assert(crate::text::opt_view(mr) == manifest_ret(f.manifest));
    let ret = ffi_return(mr, f.hir_return, has_ptr, name);
    emit_ffi_call(b, name, &kinds, lowered, ret)
}

} // verus!
