//! `recv.method(args)` on a receiver the class dispatch does not own: the
//! `Number.prototype` formatters (`toFixed`, `toPrecision`,
//! `toExponential`), the `toString` family (encoding, radix, universal),
//! and the routing of string-only and array methods by the receiver's
//! static type.

use vstd::prelude::*;

use crate::class_layout::{find_class, find_class_exec, lemma_find_class, ClassInfo};
use crate::ir::{args_view, insts_view, FnBuilder, FnBuilderV, Inst, InstV, Operand, OperandV, Ty};
use crate::text::str_eq;
use vstd::string::StringSliceAdditionalSpecFns;

verus! {

/// What static type analysis knows of a method call's receiver and
/// arguments.
#[derive(Copy, Clone, Debug, PartialEq, Eq, Structural)]
pub struct ReceiverTypes {
    /// The receiver is statically a string.
    pub recv_is_string: bool,
    /// The receiver is statically an array.
    pub recv_is_array: bool,
    /// The receiver is statically a `Buffer` or `Uint8Array`.
    pub recv_is_buffer: bool,
    /// The first argument is statically a string.
    pub arg0_is_string: bool,
    /// The second argument is a closure literal.
    pub arg1_is_closure: bool,
    /// The receiver's class, or one of its ancestors, defines `toString`.
    pub user_to_string: bool,
}

/// Where `recv.method(args)` is lowered.
#[derive(Copy, Clone, Debug, PartialEq, Eq, Structural)]
pub enum ReceiverRoute {
    /// `js_number_to_fixed`.
    ToFixed,
    /// `js_number_to_precision`.
    ToPrecision,
    /// `js_number_to_exponential`.
    ToExponential,
    /// `toString(encoding)`: `js_value_to_string_with_encoding`.
    ToStringEncoding,
    /// `toString(radix)`: `js_jsvalue_to_string_radix`.
    ToStringRadix,
    /// `toString()`: `js_jsvalue_to_string`.
    ToStringAny,
    /// The string method dispatcher.
    StringMethod,
    /// The array method dispatcher.
    ArrayMethod,
    /// None of these: the later method-dispatch paths.
    Other,
}

/// Methods that exist on strings only, so that an untyped receiver can be
/// routed to the string dispatcher (`n` arguments; `arg1_is_closure` when
/// the second argument is a closure literal).
pub open spec fn string_only_method_spec(p: Seq<char>, n: nat, arg1_is_closure: bool) -> bool {
    if p == "split"@ || p == "charCodeAt"@ || p == "charAt"@ || p == "trim"@ || p == "trimStart"@
        || p == "trimEnd"@ || p == "substring"@ || p == "substr"@ || p == "toLowerCase"@
        || p == "toUpperCase"@ || p == "toLocaleLowerCase"@ || p == "toLocaleUpperCase"@
        || p == "replaceAll"@ || p == "padStart"@ || p == "padEnd"@ || p == "repeat"@
        || p == "normalize"@ || p == "codePointAt"@ || p == "localeCompare"@ {
        true
    } else if p == "replace"@ {
        n == 2 && arg1_is_closure
    } else if p == "slice"@ {
        n > 0
    } else if p == "indexOf"@ || p == "includes"@ {
        n == 1
    } else if p == "startsWith"@ || p == "endsWith"@ {
        n == 1 || n == 2
    } else if p == "lastIndexOf"@ {
        n == 1
    } else {
        false
    }
}

/// Whether `p` is a string-only method for this argument shape.
pub fn string_only_method(p: &str, n: usize, arg1_is_closure: bool) -> (res: bool)
    ensures
        res == string_only_method_spec(p@, n as nat, arg1_is_closure),
{
    if str_eq(p, "split") || str_eq(p, "charCodeAt") || str_eq(p, "charAt") || str_eq(p, "trim")
        || str_eq(p, "trimStart") || str_eq(p, "trimEnd") || str_eq(p, "substring") || str_eq(
        p,
        "substr",
    ) || str_eq(p, "toLowerCase") || str_eq(p, "toUpperCase") || str_eq(p, "toLocaleLowerCase")
        || str_eq(p, "toLocaleUpperCase") || str_eq(p, "replaceAll") || str_eq(p, "padStart")
        || str_eq(p, "padEnd") || str_eq(p, "repeat") || str_eq(p, "normalize") || str_eq(
        p,
        "codePointAt",
    ) || str_eq(p, "localeCompare") {
        true
    } else if str_eq(p, "replace") {
        n == 2 && arg1_is_closure
    } else if str_eq(p, "slice") {
        n > 0
    } else if str_eq(p, "indexOf") || str_eq(p, "includes") {
        n == 1
    } else if str_eq(p, "startsWith") || str_eq(p, "endsWith") {
        n == 1 || n == 2
    } else if str_eq(p, "lastIndexOf") {
        n == 1
    } else {
        false
    }
}

/// The route of `recv.p(args)` with `n` arguments, in the order the
/// checks are made: the number formatters and the `toString` family apply
/// only to a receiver that is neither a string nor an array (and the
/// `toString` family only when no user class on the receiver's chain
/// defines `toString`); then a string receiver, an untyped receiver of a
/// string-only method (unless it is an array or a buffer), and an array
/// receiver.
pub open spec fn receiver_route_spec(p: Seq<char>, n: nat, f: ReceiverTypes) -> ReceiverRoute {
    let plain = !f.recv_is_string && !f.recv_is_array;
    if p == "toFixed"@ && n == 1 && plain {
        ReceiverRoute::ToFixed
    } else if p == "toPrecision"@ && n == 1 && plain {
        ReceiverRoute::ToPrecision
    } else if p == "toExponential"@ && n <= 1 && plain {
        ReceiverRoute::ToExponential
    } else if p == "toString"@ && n == 1 && plain && f.arg0_is_string && !f.user_to_string {
        ReceiverRoute::ToStringEncoding
    } else if p == "toString"@ && n == 1 && plain && !f.user_to_string {
        ReceiverRoute::ToStringRadix
    } else if p == "toString"@ && n <= 1 && plain && !f.user_to_string {
        ReceiverRoute::ToStringAny
    } else if f.recv_is_string {
        ReceiverRoute::StringMethod
    } else if string_only_method_spec(p, n, f.arg1_is_closure) && !f.recv_is_array && !f.recv_is_buffer {
        ReceiverRoute::StringMethod
    } else if f.recv_is_array {
        ReceiverRoute::ArrayMethod
    } else {
        ReceiverRoute::Other
    }
}

/// The route of `recv.p(args)` with `n` arguments.
pub fn receiver_route(p: &str, n: usize, f: ReceiverTypes) -> (res: ReceiverRoute)
    ensures
        res == receiver_route_spec(p@, n as nat, f),
{
    let plain = !f.recv_is_string && !f.recv_is_array;
    if str_eq(p, "toFixed") && n == 1 && plain {
        ReceiverRoute::ToFixed
    } else if str_eq(p, "toPrecision") && n == 1 && plain {
        ReceiverRoute::ToPrecision
    } else if str_eq(p, "toExponential") && n <= 1 && plain {
        ReceiverRoute::ToExponential
    } else if str_eq(p, "toString") && n == 1 && plain && f.arg0_is_string && !f.user_to_string {
        ReceiverRoute::ToStringEncoding
    } else if str_eq(p, "toString") && n == 1 && plain && !f.user_to_string {
        ReceiverRoute::ToStringRadix
    } else if str_eq(p, "toString") && n <= 1 && plain && !f.user_to_string {
        ReceiverRoute::ToStringAny
    } else if f.recv_is_string {
        ReceiverRoute::StringMethod
    } else if string_only_method(p, n, f.arg1_is_closure) && !f.recv_is_array && !f.recv_is_buffer {
        ReceiverRoute::StringMethod
    } else if f.recv_is_array {
        ReceiverRoute::ArrayMethod
    } else {
        ReceiverRoute::Other
    }
}

/// Whether the pair `(class, method)` is among the user methods.
pub open spec fn has_method_entry(methods: Seq<(String, String)>, class: Seq<char>, method: Seq<char>) -> bool {
    exists|k: int| 0 <= k < methods.len() && #[trigger] methods[k].0@ == class && methods[k].1@ == method
}

/// Whether class `c`, or an ancestor reached through `extends` within
/// `fuel` steps, defines `method`. The walk checks the method table first
/// and stops at a name that is not a known class.
pub open spec fn chain_has_method(
    classes: Seq<ClassInfo>,
    methods: Seq<(String, String)>,
    c: Seq<char>,
    method: Seq<char>,
    fuel: nat,
) -> bool
    decreases fuel,
{
    if has_method_entry(methods, c, method) {
        true
    } else {
        match find_class(classes, c) {
            Some(i) => match classes[i].extends {
                Some(p) => fuel > 0 && chain_has_method(classes, methods, p@, method, (fuel - 1) as nat),
                None => false,
            },
            None => false,
        }
    }
}

/// Whether the walk up the `extends` chain from the name `c` stops within
/// `fuel` steps (it does when no cycle is reachable and `fuel` is the
/// number of classes).
pub open spec fn name_chain_ends(classes: Seq<ClassInfo>, c: Seq<char>, fuel: nat) -> bool
    decreases fuel,
{
    match find_class(classes, c) {
        Some(i) => match classes[i].extends {
            Some(p) => fuel > 0 && name_chain_ends(classes, p@, (fuel - 1) as nat),
            None => true,
        },
        None => true,
    }
}

fn has_method_entry_exec(methods: &Vec<(String, String)>, class: &str, method: &str) -> (res: bool)
    ensures
        res == has_method_entry(methods@, class@, method@),
{
    let mut k: usize = 0;
    while k < methods.len()
        invariant
            k <= methods@.len(),
            forall|j: int| 0 <= j < k ==> !(#[trigger] methods@[j].0@ == class@ && methods@[j].1@ == method@),
        decreases methods@.len() - k,
    {
        if str_eq(methods[k].0.as_str(), class) && str_eq(methods[k].1.as_str(), method) {
            return true;
        }
        k = k + 1;
    }
    false
}

fn chain_has_method_exec(
    classes: &Vec<ClassInfo>,
    methods: &Vec<(String, String)>,
    c: &str,
    method: &str,
    fuel: usize,
) -> (res: bool)
    requires
        name_chain_ends(classes@, c@, fuel as nat),
    ensures
        res == chain_has_method(classes@, methods@, c@, method@, fuel as nat),
    decreases fuel,
{
    if has_method_entry_exec(methods, c, method) {
        return true;
    }
    proof {
        lemma_find_class(classes@, c@);
    }
    match find_class_exec(classes, c) {
        Some(i) => match &classes[i].extends {
            Some(p) => {
                if fuel == 0 {
                    false
                } else {
                    chain_has_method_exec(classes, methods, p.as_str(), method, fuel - 1)
                }
            },
            None => false,
        },
        None => false,
    }
}

/// Whether the receiver's class (`recv_class`, when static analysis knows
/// it) or one of its ancestors defines `method` among the user methods
/// `methods` (`(class, method)` pairs).
pub fn receiver_has_user_method(
    classes: &Vec<ClassInfo>,
    methods: &Vec<(String, String)>,
    recv_class: Option<&str>,
    method: &str,
) -> (res: bool)
    requires
        recv_class matches Some(c) ==> name_chain_ends(classes@, c@, classes@.len()),
    ensures
        res == match recv_class {
            Some(c) => chain_has_method(classes@, methods@, c@, method@, classes@.len()),
            None => false,
        },
{
    match recv_class {
        Some(c) => chain_has_method_exec(classes, methods, c, method, classes.len()),
        None => false,
    }
}

/// The ASCII lower-case of a character.
pub open spec fn ascii_lower_char(c: char) -> char {
    if 'A' <= c && c <= 'Z' {
        ((c as u32) + 32) as char
    } else {
        c
    }
}

/// The ASCII lower-case of a string; other characters are kept.
pub open spec fn ascii_lower(s: Seq<char>) -> Seq<char> {
    Seq::new(s.len(), |i: int| ascii_lower_char(s[i]))
}

/// The runtime's encoding tag of an encoding name, compared without
/// regard to ASCII case: 1 for `hex`, 2 for `base64` and `base64url`, 0
/// for the UTF-8 family and for anything else.
pub open spec fn encoding_tag_spec(name: Seq<char>) -> u64 {
    let l = ascii_lower(name);
    if l == "utf8"@ || l == "utf-8"@ || l == "ascii"@ || l == "latin1"@ || l == "binary"@ {
        0
    } else if l == "hex"@ {
        1
    } else if l == "base64"@ || l == "base64url"@ {
        2
    } else {
        0
    }
}

/// Whether `s`, lower-cased in ASCII, is the lower-case ASCII word `lit`.
fn lower_eq(s: &[u8], lit: &str) -> (res: bool)
    requires
        vstd::string::is_ascii(lit),
    ensures
        res == (s@.len() == lit@.len() && forall|i: int|
            0 <= i < s@.len() ==> #[trigger] lower_byte(s@[i]) == lit@[i] as u8),
{
    proof {
        vstd::string::is_ascii_spec_bytes(lit);
    }
    let t = lit.as_bytes();
    assert(t@.len() == lit@.len());
    if s.len() != t.len() {
        return false;
    }
    let mut i: usize = 0;
    while i < s.len()
        invariant
            i <= s@.len(),
            s@.len() == t@.len(),
            t@ == lit.spec_bytes(),
            lit.spec_bytes() =~= Seq::new(lit@.len(), |j: int| lit@[j] as u8),
            forall|j: int| 0 <= j < i ==> #[trigger] lower_byte(s@[j]) == lit@[j] as u8,
        decreases s@.len() - i,
    {
        let c = s[i];
        let l = if 65 <= c && c <= 90 {
            c + 32
        } else {
            c
        };
        assert(l == lower_byte(s@[i as int]));
        assert(t@[i as int] == lit@[i as int] as u8);
        if l != t[i] {
            return false;
        }
        i = i + 1;
    }
    true
}

/// The ASCII lower-case of a byte.
pub open spec fn lower_byte(b: u8) -> u8 {
    if 65 <= b && b <= 90 {
        (b + 32) as u8
    } else {
        b
    }
}

proof fn lemma_lower_eq_chars(s: Seq<char>, lit: Seq<char>)
    requires
        vstd::utf8::is_ascii_chars(s),
        vstd::utf8::is_ascii_chars(lit),
    ensures
        (ascii_lower(s) == lit) <==> (s.len() == lit.len() && forall|i: int|
            0 <= i < s.len() ==> #[trigger] lower_byte(s[i] as u8) == lit[i] as u8),
{
    if s.len() == lit.len() && forall|i: int| 0 <= i < s.len() ==> #[trigger] lower_byte(s[i] as u8) == lit[i] as u8 {
        assert forall|i: int| 0 <= i < s.len() implies ascii_lower(s)[i] == lit[i] by {
            assert(lower_byte(s[i] as u8) == lit[i] as u8);
            assert(vstd::utf8::is_ascii_chars(s) ==> (s[i] as u32) < 128);
        }
        assert(ascii_lower(s) =~= lit);
    }
    if ascii_lower(s) == lit {
        assert forall|i: int| 0 <= i < s.len() implies #[trigger] lower_byte(s[i] as u8) == lit[i] as u8 by {
            assert(ascii_lower(s)[i] == lit[i]);
        }
    }
}

proof fn lemma_non_ascii_lower_ne(s: Seq<char>, lit: Seq<char>)
    requires
        !vstd::utf8::is_ascii_chars(s),
        vstd::utf8::is_ascii_chars(lit),
    ensures
        ascii_lower(s) != lit,
{
    let k = choose|k: int| 0 <= k < s.len() && !('\0' <= #[trigger] s[k] <= '\u{7f}');
    if ascii_lower(s) == lit {
        assert(ascii_lower(s)[k] == s[k]);
        assert('\0' <= lit[k] <= '\u{7f}');
    }
}

/// The runtime's encoding tag of the encoding name `name` (see
/// `encoding_tag_spec`).
pub fn encoding_tag(name: &str) -> (tag: u64)
    ensures
        tag == encoding_tag_spec(name@),
{
    proof {
        reveal_strlit("hex");
        reveal_strlit("base64");
        reveal_strlit("base64url");
        reveal_strlit("utf8");
        reveal_strlit("utf-8");
        reveal_strlit("ascii");
        reveal_strlit("latin1");
        reveal_strlit("binary");
    }
    assert(vstd::utf8::is_ascii_chars("hex"@));
    assert(vstd::utf8::is_ascii_chars("base64"@));
    assert(vstd::utf8::is_ascii_chars("base64url"@));
    if !name.is_ascii() {
        proof {
            lemma_non_ascii_lower_ne(name@, "hex"@);
            lemma_non_ascii_lower_ne(name@, "base64"@);
            lemma_non_ascii_lower_ne(name@, "base64url"@);
        }
        return 0;
    }
    proof {
        vstd::string::is_ascii_spec_bytes(name);
    }
    let bytes = name.as_bytes();
    proof {
        lemma_lower_eq_chars(name@, "hex"@);
        lemma_lower_eq_chars(name@, "base64"@);
        lemma_lower_eq_chars(name@, "base64url"@);
        assert forall|i: int| 0 <= i < name@.len() implies bytes@[i] == name@[i] as u8 by {}
    }
    let h = lower_eq(bytes, "hex");
    let b64 = lower_eq(bytes, "base64");
    let b64u = lower_eq(bytes, "base64url");
    proof {
        lemma_bytes_chars(bytes@, name@, "hex"@);
        lemma_bytes_chars(bytes@, name@, "base64"@);
        lemma_bytes_chars(bytes@, name@, "base64url"@);
        assert(h == (ascii_lower(name@) == "hex"@));
        assert(b64 == (ascii_lower(name@) == "base64"@));
        assert(b64u == (ascii_lower(name@) == "base64url"@));
        assert("hex"@ != "utf8"@ && "hex"@ != "utf-8"@ && "hex"@ != "ascii"@ && "hex"@ != "latin1"@ && "hex"@ != "binary"@);
        assert("base64"@[0] != "latin1"@[0] && "base64"@[1] != "binary"@[1]);
        assert("base64"@ != "utf8"@ && "base64"@ != "utf-8"@ && "base64"@ != "ascii"@ && "base64"@ != "latin1"@ && "base64"@ != "binary"@);
        assert("base64url"@ != "utf8"@ && "base64url"@ != "utf-8"@ && "base64url"@ != "ascii"@ && "base64url"@ != "latin1"@ && "base64url"@ != "binary"@);
    }
    if h {
        1
    } else if b64 || b64u {
        2
    } else {
        0
    }
}

proof fn lemma_bytes_chars(bytes: Seq<u8>, s: Seq<char>, lit: Seq<char>)
    requires
        bytes.len() == s.len(),
        forall|i: int| 0 <= i < s.len() ==> bytes[i] == s[i] as u8,
    ensures
        (forall|i: int| 0 <= i < bytes.len() ==> #[trigger] lower_byte(bytes[i]) == lit[i] as u8) <==> (
        forall|i: int| 0 <= i < s.len() ==> #[trigger] lower_byte(s[i] as u8) == lit[i] as u8),
{
    if forall|i: int| 0 <= i < bytes.len() ==> #[trigger] lower_byte(bytes[i]) == lit[i] as u8 {
        assert forall|i: int| 0 <= i < s.len() implies #[trigger] lower_byte(s[i] as u8) == lit[i] as u8 by {
            assert(lower_byte(bytes[i]) == lit[i] as u8);
        }
    }
    if forall|i: int| 0 <= i < s.len() ==> #[trigger] lower_byte(s[i] as u8) == lit[i] as u8 {
        assert forall|i: int| 0 <= i < bytes.len() implies #[trigger] lower_byte(bytes[i]) == lit[i] as u8 by {
            assert(lower_byte(s[i] as u8) == lit[i] as u8);
        }
    }
}

/// The runtime formatter of a `Number.prototype` formatting route.
pub open spec fn number_format_runtime(route: ReceiverRoute) -> Seq<char> {
    match route {
        ReceiverRoute::ToFixed => "js_number_to_fixed"@,
        ReceiverRoute::ToPrecision => "js_number_to_precision"@,
        _ => "js_number_to_exponential"@,
    }
}

/// `call i64 @runtime(args)` into `r`, then the NaN-boxed string `r + 1`.
pub open spec fn string_call(pre: FnBuilderV, runtime: Seq<char>, args: Seq<(Ty, OperandV)>) -> FnBuilderV {
    let r = pre.next_reg;
    (FnBuilderV { next_reg: r + 2, ..pre }).append_cur(
        seq![
            InstV::Call { dest: Some(r as u64), ret: Ty::I64, callee: runtime, args },
            InstV::NanboxString { dest: (r + 1) as u64, val: OperandV::Reg(r as u64) },
        ],
    )
}

/// Emits the call of a runtime that returns a string pointer and boxes it.
fn emit_string_call(b: &mut FnBuilder, runtime: &str, args: Vec<(Ty, Operand)>) -> (res: Operand)
    requires
        old(b)@.wf(),
        old(b)@.next_reg + 2 <= u64::MAX,
    ensures
        res@ == OperandV::Reg((old(b)@.next_reg + 1) as u64),
        final(b)@ == string_call(old(b)@, runtime@, args_view(args@)),
        final(b)@.wf(),
{
    let ghost av = args_view(args@);
    let r = b.peek_reg();
    b.reserve_regs(2);
    let insts = vec![
        Inst::Call { dest: Some(r), ret: Ty::I64, callee: String::from_str(runtime), args },
        Inst::NanboxString { dest: r + 1, val: Operand::Reg(r) },
    ];
    assert(insts_view(insts@) =~= seq![
        InstV::Call { dest: Some(r), ret: Ty::I64, callee: runtime@, args: av },
        InstV::NanboxString { dest: (r + 1) as u64, val: OperandV::Reg(r) },
    ]);
    b.push_all(insts);
    Operand::Reg(r + 1)
}

/// The value of an optional argument, `0.0` when absent.
pub open spec fn or_zero(arg: Option<Operand>) -> OperandV {
    match arg {
        Some(a) => a@,
        None => OperandV::Zero,
    }
}

/// Lowers `recv.toFixed(d)`, `recv.toPrecision(p)` or
/// `recv.toExponential(d)`: the runtime formatter on the receiver and the
/// argument (`0.0` when absent), boxed as a string.
pub fn lower_number_format(b: &mut FnBuilder, route: ReceiverRoute, recv: Operand, arg: Option<Operand>) -> (res: Operand)
    requires
        old(b)@.wf(),
        old(b)@.next_reg + 2 <= u64::MAX,
        route == ReceiverRoute::ToFixed || route == ReceiverRoute::ToPrecision || route
            == ReceiverRoute::ToExponential,
    ensures
        res@ == OperandV::Reg((old(b)@.next_reg + 1) as u64),
        final(b)@ == string_call(
            old(b)@,
            number_format_runtime(route),
            seq![(Ty::Double, recv@), (Ty::Double, or_zero(arg))],
        ),
        final(b)@.wf(),
{
    let runtime = match route {
        ReceiverRoute::ToFixed => "js_number_to_fixed",
        ReceiverRoute::ToPrecision => "js_number_to_precision",
        _ => "js_number_to_exponential",
    };
    let a = match arg {
        Some(a) => a,
        None => Operand::Zero,
    };
    let ghost rv = recv@;
    let ghost av = a@;
    let args = vec![(Ty::Double, recv), (Ty::Double, a)];
    assert(args_view(args@) =~= seq![(Ty::Double, rv), (Ty::Double, av)]);
    emit_string_call(b, runtime, args)
}

/// The encoding argument of `recv.toString(encoding)`.
pub enum EncodingArg {
    /// A string literal, resolved to its tag at compile time.
    Literal(String),
    /// Any other expression, lowered to this value.
    Lowered(Operand),
}

/// Lowers `recv.toString(encoding)`: `js_value_to_string_with_encoding`
/// on the receiver and the encoding's `i32` tag, boxed as a string. A
/// literal encoding is resolved here (`encoding_tag_spec`); any other is
/// resolved at run time by `js_encoding_tag_from_value`.
pub fn lower_to_string_with_encoding(b: &mut FnBuilder, recv: Operand, enc: EncodingArg) -> (res: Operand)
    requires
        old(b)@.wf(),
        old(b)@.next_reg + 3 <= u64::MAX,
    ensures
        final(b)@.wf(),
        match enc {
            EncodingArg::Literal(name) => {
                &&& res@ == OperandV::Reg((old(b)@.next_reg + 1) as u64)
                &&& final(b)@ == string_call(
                    old(b)@,
                    "js_value_to_string_with_encoding"@,
                    seq![(Ty::Double, recv@), (Ty::I32, OperandV::Int(encoding_tag_spec(name@)))],
                )
            },
            EncodingArg::Lowered(v) => {
                let r = old(b)@.next_reg;
                let mid = (FnBuilderV { next_reg: r + 1, ..old(b)@ }).append_cur(
                    seq![
                        InstV::Call {
                            dest: Some(r as u64),
                            ret: Ty::I32,
                            callee: "js_encoding_tag_from_value"@,
                            args: seq![(Ty::Double, v@)],
                        },
                    ],
                );
                &&& res@ == OperandV::Reg((r + 2) as u64)
                &&& final(b)@ == string_call(
                    mid,
                    "js_value_to_string_with_encoding"@,
                    seq![(Ty::Double, recv@), (Ty::I32, OperandV::Reg(r as u64))],
                )
            },
        },
{
    let ghost rv = recv@;
    match enc {
        EncodingArg::Literal(name) => {
            let tag = encoding_tag(name.as_str());
            let args = vec![(Ty::Double, recv), (Ty::I32, Operand::Int(tag))];
            assert(args_view(args@) =~= seq![(Ty::Double, rv), (Ty::I32, OperandV::Int(tag))]);
            emit_string_call(b, "js_value_to_string_with_encoding", args)
        },
        EncodingArg::Lowered(v) => {
            let ghost vv = v@;
            let a1 = vec![(Ty::Double, v)];
            assert(args_view(a1@) =~= seq![(Ty::Double, vv)]);
            let t = b.call(Ty::I32, "js_encoding_tag_from_value", a1);
            let args = vec![(Ty::Double, recv), (Ty::I32, Operand::Reg(t))];
            assert(args_view(args@) =~= seq![(Ty::Double, rv), (Ty::I32, OperandV::Reg(t))]);
            emit_string_call(b, "js_value_to_string_with_encoding", args)
        },
    }
}

/// Lowers `recv.toString(radix)`: the radix converted to `i32`, then
/// `js_jsvalue_to_string_radix` on the receiver and it, boxed as a string.
pub fn lower_to_string_radix(b: &mut FnBuilder, recv: Operand, radix: Operand) -> (res: Operand)
    requires
        old(b)@.wf(),
        old(b)@.next_reg + 3 <= u64::MAX,
    ensures
        ({
            let r = old(b)@.next_reg;
            let mid = (FnBuilderV { next_reg: r + 1, ..old(b)@ }).append_cur(
                seq![InstV::Fptosi { dest: r as u64, to: Ty::I32, val: radix@ }],
            );
            &&& res@ == OperandV::Reg((r + 2) as u64)
            &&& final(b)@ == string_call(
                mid,
                "js_jsvalue_to_string_radix"@,
                seq![(Ty::Double, recv@), (Ty::I32, OperandV::Reg(r as u64))],
            )
        }),
        final(b)@.wf(),
{
    let ghost rv = recv@;
    let r = b.fresh_reg();
    b.push(Inst::Fptosi { dest: r, to: Ty::I32, val: radix });
    let args = vec![(Ty::Double, recv), (Ty::I32, Operand::Reg(r))];
    assert(args_view(args@) =~= seq![(Ty::Double, rv), (Ty::I32, OperandV::Reg(r))]);
    emit_string_call(b, "js_jsvalue_to_string_radix", args)
}

/// Lowers `recv.toString()` for any value: `js_jsvalue_to_string` on the
/// receiver, boxed as a string.
pub fn lower_to_string_any(b: &mut FnBuilder, recv: Operand) -> (res: Operand)
    requires
        old(b)@.wf(),
        old(b)@.next_reg + 2 <= u64::MAX,
    ensures
        res@ == OperandV::Reg((old(b)@.next_reg + 1) as u64),
        final(b)@ == string_call(old(b)@, "js_jsvalue_to_string"@, seq![(Ty::Double, recv@)]),
        final(b)@.wf(),
{
    let ghost rv = recv@;
    let args = vec![(Ty::Double, recv)];
    assert(args_view(args@) =~= seq![(Ty::Double, rv)]);
    emit_string_call(b, "js_jsvalue_to_string", args)
}

} // verus!
