//! Node-style Buffer numeric reads (`buf.readInt32BE(offset)` etc.) that are
//! inlined as a load, an optional byte swap and a conversion to `double`
//! instead of a runtime dispatch through `js_native_call_method`.

use vstd::prelude::*;

use crate::ir::{args_view, insts_view, FnBuilder, FnBuilderV, Inst, InstV, Operand, OperandV, Ty};
use crate::text::str_eq;

verus! {

/// How a Buffer read accessor reads: its width, byte order and number kind.
#[derive(Copy, Clone, Debug, PartialEq, Eq, Structural)]
pub struct BufferNumericReadSpec {
    pub width_bytes: u32,
    /// Big-endian: the loaded bits are byte-swapped (`@llvm.bswap`).
    pub swap: bool,
    /// `sitofp` rather than `uitofp` (ignored for float/double).
    pub signed: bool,
    /// `readFloat*` / `readDouble*`.
    pub is_float: bool,
}

pub open spec fn read_spec(width_bytes: u32, swap: bool, signed: bool, is_float: bool) -> BufferNumericReadSpec {
    BufferNumericReadSpec { width_bytes, swap, signed, is_float }
}

/// The accessor table: the read spec of each Node-style numeric read method.
pub open spec fn classify_buffer_numeric_read_spec(m: Seq<char>) -> Option<BufferNumericReadSpec> {
    if m == "readUInt8"@ || m == "readUint8"@ {
        Some(read_spec(1, false, false, false))
    } else if m == "readInt8"@ {
        Some(read_spec(1, false, true, false))
    } else if m == "readUInt16BE"@ || m == "readUint16BE"@ {
        Some(read_spec(2, true, false, false))
    } else if m == "readUInt16LE"@ || m == "readUint16LE"@ {
        Some(read_spec(2, false, false, false))
    } else if m == "readInt16BE"@ {
        Some(read_spec(2, true, true, false))
    } else if m == "readInt16LE"@ {
        Some(read_spec(2, false, true, false))
    } else if m == "readUInt32BE"@ || m == "readUint32BE"@ {
        Some(read_spec(4, true, false, false))
    } else if m == "readUInt32LE"@ || m == "readUint32LE"@ {
        Some(read_spec(4, false, false, false))
    } else if m == "readInt32BE"@ {
        Some(read_spec(4, true, true, false))
    } else if m == "readInt32LE"@ {
        Some(read_spec(4, false, true, false))
    } else if m == "readFloatBE"@ {
        Some(read_spec(4, true, true, true))
    } else if m == "readFloatLE"@ {
        Some(read_spec(4, false, true, true))
    } else if m == "readDoubleBE"@ {
        Some(read_spec(8, true, true, true))
    } else if m == "readDoubleLE"@ {
        Some(read_spec(8, false, true, true))
    } else {
        None
    }
}

/// The read spec of a Node-style numeric read accessor, or `None` for any
/// other method name.
pub fn classify_buffer_numeric_read(method: &str) -> (res: Option<BufferNumericReadSpec>)
    ensures
        res == classify_buffer_numeric_read_spec(method@),
{
    if str_eq(method, "readUInt8") || str_eq(method, "readUint8") {
        Some(BufferNumericReadSpec { width_bytes: 1, swap: false, signed: false, is_float: false })
    } else if str_eq(method, "readInt8") {
        Some(BufferNumericReadSpec { width_bytes: 1, swap: false, signed: true, is_float: false })
    } else if str_eq(method, "readUInt16BE") || str_eq(method, "readUint16BE") {
        Some(BufferNumericReadSpec { width_bytes: 2, swap: true, signed: false, is_float: false })
    } else if str_eq(method, "readUInt16LE") || str_eq(method, "readUint16LE") {
        Some(BufferNumericReadSpec { width_bytes: 2, swap: false, signed: false, is_float: false })
    } else if str_eq(method, "readInt16BE") {
        Some(BufferNumericReadSpec { width_bytes: 2, swap: true, signed: true, is_float: false })
    } else if str_eq(method, "readInt16LE") {
        Some(BufferNumericReadSpec { width_bytes: 2, swap: false, signed: true, is_float: false })
    } else if str_eq(method, "readUInt32BE") || str_eq(method, "readUint32BE") {
        Some(BufferNumericReadSpec { width_bytes: 4, swap: true, signed: false, is_float: false })
    } else if str_eq(method, "readUInt32LE") || str_eq(method, "readUint32LE") {
        Some(BufferNumericReadSpec { width_bytes: 4, swap: false, signed: false, is_float: false })
    } else if str_eq(method, "readInt32BE") {
        Some(BufferNumericReadSpec { width_bytes: 4, swap: true, signed: true, is_float: false })
    } else if str_eq(method, "readInt32LE") {
        Some(BufferNumericReadSpec { width_bytes: 4, swap: false, signed: true, is_float: false })
    } else if str_eq(method, "readFloatBE") {
        Some(BufferNumericReadSpec { width_bytes: 4, swap: true, signed: true, is_float: true })
    } else if str_eq(method, "readFloatLE") {
        Some(BufferNumericReadSpec { width_bytes: 4, swap: false, signed: true, is_float: true })
    } else if str_eq(method, "readDoubleBE") {
        Some(BufferNumericReadSpec { width_bytes: 8, swap: true, signed: true, is_float: true })
    } else if str_eq(method, "readDoubleLE") {
        Some(BufferNumericReadSpec { width_bytes: 8, swap: false, signed: true, is_float: true })
    } else {
        None
    }
}

/// Every accessor reads 1, 2, 4 or 8 bytes; a 1-byte read is never
/// byte-swapped; an 8-byte read is always a double; a float read is 4 or 8
/// bytes wide.
pub proof fn law_buffer_read_shapes(m: Seq<char>)
    ensures
        classify_buffer_numeric_read_spec(m) matches Some(s) ==> {
            &&& s.width_bytes == 1 || s.width_bytes == 2 || s.width_bytes == 4 || s.width_bytes == 8
            &&& s.width_bytes == 1 ==> !s.swap
            &&& s.width_bytes == 8 ==> s.is_float
            &&& s.is_float ==> (s.width_bytes == 4 || s.width_bytes == 8)
        },
{
}

/// An accessor's name spells how it reads: its width is one byte when the
/// name ends in `8`, two when `16` stands before the byte order, eight for
/// `Double` and four otherwise; it byte-swaps exactly when the name ends
/// in `BE`; it reads a float exactly when the name says `Float` or
/// `Double`; an integer read is signed exactly when the name says `Int`
/// rather than `UInt` / `Uint`.
pub proof fn law_buffer_read_naming(m: Seq<char>)
    ensures
        classify_buffer_numeric_read_spec(m) matches Some(s) ==> {
            &&& m.len() >= 5
            &&& s.width_bytes == if m[m.len() - 1] == '8' {
                1u32
            } else if m[m.len() - 4] == '1' && m[m.len() - 3] == '6' {
                2u32
            } else if m[4] == 'D' {
                8u32
            } else {
                4u32
            }
            &&& s.swap <==> (m[m.len() - 2] == 'B' && m[m.len() - 1] == 'E')
            &&& s.is_float <==> (m[4] == 'F' || m[4] == 'D')
            &&& !s.is_float ==> (s.signed <==> m[4] == 'I')
        },
{
    reveal_strlit("readUInt8");
    reveal_strlit("readUint8");
    reveal_strlit("readInt8");
    reveal_strlit("readUInt16BE");
    reveal_strlit("readUint16BE");
    reveal_strlit("readUInt16LE");
    reveal_strlit("readUint16LE");
    reveal_strlit("readInt16BE");
    reveal_strlit("readInt16LE");
    reveal_strlit("readUInt32BE");
    reveal_strlit("readUint32BE");
    reveal_strlit("readUInt32LE");
    reveal_strlit("readUint32LE");
    reveal_strlit("readInt32BE");
    reveal_strlit("readInt32LE");
    reveal_strlit("readFloatBE");
    reveal_strlit("readFloatLE");
    reveal_strlit("readDoubleBE");
    reveal_strlit("readDoubleLE");
}

/// How the loaded integer becomes a `double`.
#[derive(Copy, Clone, Debug, PartialEq, Eq, Structural)]
pub enum ReadConversion {
    /// Sign-extend the narrow load to i32, then `sitofp`.
    SextThenSitofp,
    /// Zero-extend the narrow load to i32, then `uitofp`.
    ZextThenUitofp,
    /// `sitofp` of the i32 load.
    Sitofp,
    /// `uitofp` of the i32 load.
    Uitofp,
    /// Bitcast the i32 bits to `float`, then `fpext` to `double`.
    BitcastFloatThenFpext,
    /// Bitcast the i64 bits to `double`.
    BitcastDouble,
}

/// The instructions of an inlined read: the integer type of the load, the
/// byte-swap intrinsic when big-endian, and the conversion.
#[derive(Copy, Clone, Debug)]
pub struct BufferReadPlan {
    pub width_bytes: u32,
    pub load_ty: Ty,
    pub swap_intrinsic: Option<&'static str>,
    pub conversion: ReadConversion,
}

/// The integer type loaded for a read width.
pub open spec fn load_ty_for(width: u32) -> Ty {
    if width == 1 {
        Ty::I8
    } else if width == 2 {
        Ty::I16
    } else if width == 4 {
        Ty::I32
    } else {
        Ty::I64
    }
}

/// The byte-swap intrinsic for a big-endian read of a width (none for one
/// byte: `llvm.bswap.i8` does not exist).
pub open spec fn swap_intrinsic_for(s: BufferNumericReadSpec) -> Option<Seq<char>> {
    if !s.swap || s.width_bytes == 1 {
        None
    } else if s.width_bytes == 2 {
        Some("llvm.bswap.i16"@)
    } else if s.width_bytes == 4 {
        Some("llvm.bswap.i32"@)
    } else {
        Some("llvm.bswap.i64"@)
    }
}

/// The conversion for a read spec; `None` for an 8-byte integer read
/// (a BigInt read would need an allocation, so it is not inlined).
pub open spec fn conversion_for(s: BufferNumericReadSpec) -> Option<ReadConversion> {
    if s.is_float {
        if s.width_bytes == 4 {
            Some(ReadConversion::BitcastFloatThenFpext)
        } else {
            Some(ReadConversion::BitcastDouble)
        }
    } else if s.width_bytes == 1 || s.width_bytes == 2 {
        if s.signed {
            Some(ReadConversion::SextThenSitofp)
        } else {
            Some(ReadConversion::ZextThenUitofp)
        }
    } else if s.width_bytes == 4 {
        if s.signed {
            Some(ReadConversion::Sitofp)
        } else {
            Some(ReadConversion::Uitofp)
        }
    } else {
        None
    }
}

/// Whether a `buf.<method>(args)` call is inlined, and how: only a numeric
/// read accessor, called with exactly one `offset` argument, on a receiver
/// that is a tracked `Buffer.alloc(N)` local, and not an 8-byte integer read.
pub open spec fn buffer_read_plan_spec(method: Seq<char>, nargs: nat, receiver_tracked: bool) -> Option<
    (BufferNumericReadSpec, ReadConversion),
> {
    match classify_buffer_numeric_read_spec(method) {
        Some(s) => if nargs == 1 && receiver_tracked {
            match conversion_for(s) {
                Some(c) => Some((s, c)),
                None => None,
            }
        } else {
            None
        },
        None => None,
    }
}

/// Decides whether a Buffer read is inlined and returns its plan: the width,
/// the integer type of the load, the byte swap and the conversion to
/// `double`. `None` sends the call to the runtime dispatcher.
pub fn buffer_read_plan(method: &str, nargs: usize, receiver_tracked: bool) -> (res: Option<BufferReadPlan>)
    ensures
        match buffer_read_plan_spec(method@, nargs as nat, receiver_tracked) {
            Some((s, c)) => res matches Some(p) && p.width_bytes == s.width_bytes && p.load_ty == load_ty_for(
                s.width_bytes,
            ) && p.conversion == c && match (p.swap_intrinsic, swap_intrinsic_for(s)) {
                (Some(x), Some(y)) => x@ == y,
                (None, None) => true,
                _ => false,
            },
            None => res is None,
        },
{
    let spec = match classify_buffer_numeric_read(method) {
        Some(s) => s,
        None => return None,
    };
    // Node-style readers take exactly one `offset` argument.
    if nargs != 1 || !receiver_tracked {
        return None;
    }
    let (load_ty, swap_intrinsic) = if spec.width_bytes == 1 {
        (Ty::I8, None)
    } else if spec.width_bytes == 2 {
        (Ty::I16, Some("llvm.bswap.i16"))
    } else if spec.width_bytes == 4 {
        (Ty::I32, Some("llvm.bswap.i32"))
    } else {
        (Ty::I64, Some("llvm.bswap.i64"))
    };
    let swap = if spec.swap { swap_intrinsic } else { None };
    let conversion = if spec.is_float {
        if spec.width_bytes == 4 {
            ReadConversion::BitcastFloatThenFpext
        } else {
            ReadConversion::BitcastDouble
        }
    } else if spec.width_bytes == 1 || spec.width_bytes == 2 {
        if spec.signed {
            ReadConversion::SextThenSitofp
        } else {
            ReadConversion::ZextThenUitofp
        }
    } else if spec.width_bytes == 4 {
        if spec.signed {
            ReadConversion::Sitofp
        } else {
            ReadConversion::Uitofp
        }
    } else {
        // Signed 8-byte reads (BigInt64) would need a BigInt allocation.
        return None;
    };
    Some(BufferReadPlan { width_bytes: spec.width_bytes, load_ty, swap_intrinsic: swap, conversion })
}

/// The offset argument of an inlined read, lowered: as an `i32` when it
/// qualifies for integer lowering, else as a `double`.
pub enum ReadOffset {
    I32(Operand),
    Double(Operand),
}

/// The `i32` offset of a read from register `r`: the instructions, the
/// offset and the next free register (a `double` offset is converted with
/// `fptosi`).
pub open spec fn offset_insts(off: ReadOffset, r: int) -> (Seq<InstV>, OperandV, int) {
    match off {
        ReadOffset::I32(o) => (Seq::empty(), o@, r),
        ReadOffset::Double(d) => (
            seq![InstV::Fptosi { dest: r as u64, to: Ty::I32, val: d@ }],
            OperandV::Reg(r as u64),
            r + 1,
        ),
    }
}

/// The conversion of the loaded (and swapped) bits `v` of integer type
/// `lt` to a `double`, from register `r`: the instructions, the result and
/// the next free register.
pub open spec fn conversion_insts(c: ReadConversion, lt: Ty, v: OperandV, r: int) -> (Seq<InstV>, OperandV, int) {
    let d0 = r as u64;
    let d1 = (r + 1) as u64;
    match c {
        ReadConversion::SextThenSitofp => (
            seq![
                InstV::Sext { dest: d0, from: lt, to: Ty::I32, val: v },
                InstV::Sitofp { dest: d1, from: Ty::I32, val: OperandV::Reg(d0) },
            ],
            OperandV::Reg(d1),
            r + 2,
        ),
        ReadConversion::ZextThenUitofp => (
            seq![
                InstV::Zext { dest: d0, from: lt, to: Ty::I32, val: v },
                InstV::Uitofp { dest: d1, from: Ty::I32, val: OperandV::Reg(d0) },
            ],
            OperandV::Reg(d1),
            r + 2,
        ),
        ReadConversion::Sitofp => (seq![InstV::Sitofp { dest: d0, from: Ty::I32, val: v }], OperandV::Reg(d0), r + 1),
        ReadConversion::Uitofp => (seq![InstV::Uitofp { dest: d0, from: Ty::I32, val: v }], OperandV::Reg(d0), r + 1),
        ReadConversion::BitcastFloatThenFpext => (
            seq![InstV::BitcastI32ToFloat { dest: d0, val: v }, InstV::Fpext { dest: d1, val: OperandV::Reg(d0) }],
            OperandV::Reg(d1),
            r + 2,
        ),
        ReadConversion::BitcastDouble => (
            seq![InstV::BitcastI64ToDouble { dest: d0, val: v }],
            OperandV::Reg(d0),
            r + 1,
        ),
    }
}

/// The bounds-checked load of a read (see `buffer_read_insts`) from
/// register `r`, at the `i32` offset `o`.
pub open spec fn read_body(width: u32, lt: Ty, slot: OperandV, scope: usize, o: OperandV, r: int) -> Seq<InstV> {
    seq![
        InstV::Load { dest: r as u64, ty: Ty::Ptr, ptr: slot },
        InstV::GepOffset { dest: (r + 1) as u64, elem: Ty::I8, base: OperandV::Reg(r as u64), offset: -8i64 },
        InstV::LoadInvariant { dest: (r + 2) as u64, ty: Ty::I32, ptr: OperandV::Reg((r + 1) as u64) },
        InstV::Add { dest: (r + 3) as u64, ty: Ty::I32, lhs: o, rhs: OperandV::Int(width as u64) },
        InstV::IntUle {
            dest: (r + 4) as u64,
            ty: Ty::I32,
            lhs: OperandV::Reg((r + 3) as u64),
            rhs: OperandV::Reg((r + 2) as u64),
        },
        InstV::Call {
            dest: None,
            ret: Ty::Void,
            callee: "llvm.assume"@,
            args: seq![(Ty::I1, OperandV::Reg((r + 4) as u64))],
        },
        InstV::GepInbounds { dest: (r + 5) as u64, elem: Ty::I8, base: OperandV::Reg(r as u64), index: o },
        InstV::LoadScoped { dest: (r + 6) as u64, ty: lt, ptr: OperandV::Reg((r + 5) as u64), scope },
    ]
}

/// The byte swap of the loaded bits in register `r - 1` by intrinsic
/// `swap`, from register `r`: the instructions, the swapped bits and the
/// next free register (nothing, and the loaded bits, without a swap).
pub open spec fn swap_part(swap: Option<Seq<char>>, lt: Ty, r: int) -> (Seq<InstV>, OperandV, int) {
    match swap {
        Some(f) => (
            seq![
                InstV::Call {
                    dest: Some(r as u64),
                    ret: lt,
                    callee: f,
                    args: seq![(lt, OperandV::Reg((r - 1) as u64))],
                },
            ],
            OperandV::Reg(r as u64),
            r + 1,
        ),
        None => (Seq::empty(), OperandV::Reg((r - 1) as u64), r),
    }
}

/// An inlined read of `width` bytes at the offset `off` of the buffer
/// whose data pointer is stored in `slot` (alias scope `scope`), from
/// register `r0`: the data pointer loaded; the buffer's length loaded
/// (invariantly) from its header 8 bytes before the data; `offset + width
/// <= length` passed to `llvm.assume`; the element loaded as `lt` through
/// an in-bounds pointer, tagged with the scope; the byte swap `swap` when
/// there is one; then the conversion `c`. The instructions, the `double`
/// result and the next free register.
pub open spec fn buffer_read_insts(
    width: u32,
    lt: Ty,
    swap: Option<Seq<char>>,
    c: ReadConversion,
    slot: OperandV,
    scope: usize,
    off: ReadOffset,
    r0: int,
) -> (Seq<InstV>, OperandV, int) {
    let (oi, o, r) = offset_insts(off, r0);
    let (si, sv, r2) = swap_part(swap, lt, r + 7);
    let (ci, res, r3) = conversion_insts(c, lt, sv, r2);
    (oi + read_body(width, lt, slot, scope, o, r) + si + ci, res, r3)
}

/// The view of a plan's byte-swap intrinsic.
pub open spec fn swap_view(s: Option<&'static str>) -> Option<Seq<char>> {
    match s {
        Some(f) => Some(f@),
        None => None,
    }
}

fn read_body_exec(width: u32, lt: Ty, slot: Operand, scope: usize, o: Operand, r: u64) -> (insts: Vec<Inst>)
    requires
        r + 7 <= u64::MAX,
    ensures
        insts_view(insts@) == read_body(width, lt, slot@, scope, o@, r as int),
{
    let ghost ov = o@;
    let ghost sv = slot@;
    let o2 = crate::ir::copy_operand(&o);
    let assume_args = vec![(Ty::I1, Operand::Reg(r + 4))];
    assert(args_view(assume_args@) =~= seq![(Ty::I1, OperandV::Reg((r + 4) as u64))]);
    let insts = vec![
        Inst::Load { dest: r, ty: Ty::Ptr, ptr: slot },
        Inst::GepOffset { dest: r + 1, elem: Ty::I8, base: Operand::Reg(r), offset: -8 },
        Inst::LoadInvariant { dest: r + 2, ty: Ty::I32, ptr: Operand::Reg(r + 1) },
        Inst::Add { dest: r + 3, ty: Ty::I32, lhs: o, rhs: Operand::Int(width as u64) },
        Inst::IntUle { dest: r + 4, ty: Ty::I32, lhs: Operand::Reg(r + 3), rhs: Operand::Reg(r + 2) },
        Inst::Call { dest: None, ret: Ty::Void, callee: String::from_str("llvm.assume"), args: assume_args },
        Inst::GepInbounds { dest: r + 5, elem: Ty::I8, base: Operand::Reg(r), index: o2 },
        Inst::LoadScoped { dest: r + 6, ty: lt, ptr: Operand::Reg(r + 5), scope },
    ];
    assert(insts_view(insts@) =~= read_body(width, lt, sv, scope, ov, r as int));
    insts
}

fn swap_exec(swap: Option<&'static str>, lt: Ty, r: u64) -> (res: (Vec<Inst>, Operand, u64))
    requires
        1 <= r,
        r + 1 <= u64::MAX,
    ensures
        ({
            let (si, sv, r2) = swap_part(swap_view(swap), lt, r as int);
            &&& insts_view(res.0@) == si
            &&& res.1@ == sv
            &&& res.2 == r2
        }),
{
    match swap {
        Some(f) => {
            let a = vec![(lt, Operand::Reg(r - 1))];
            assert(args_view(a@) =~= seq![(lt, OperandV::Reg((r - 1) as u64))]);
            let insts = vec![Inst::Call { dest: Some(r), ret: lt, callee: String::from_str(f), args: a }];
            assert(insts_view(insts@) =~= swap_part(swap_view(swap), lt, r as int).0);
            (insts, Operand::Reg(r), r + 1)
        },
        None => {
            let insts: Vec<Inst> = Vec::new();
            assert(insts_view(insts@) =~= Seq::<InstV>::empty());
            (insts, Operand::Reg(r - 1), r)
        },
    }
}

fn conversion_exec(c: ReadConversion, lt: Ty, v: Operand, r: u64) -> (res: (Vec<Inst>, Operand, u64))
    requires
        r + 2 <= u64::MAX,
    ensures
        ({
            let (ci, cv, r3) = conversion_insts(c, lt, v@, r as int);
            &&& insts_view(res.0@) == ci
            &&& res.1@ == cv
            &&& res.2 == r3
        }),
{
    let ghost vv = v@;
    let (insts, out, next) = match c {
        ReadConversion::SextThenSitofp => (
            vec![
                Inst::Sext { dest: r, from: lt, to: Ty::I32, val: v },
                Inst::Sitofp { dest: r + 1, from: Ty::I32, val: Operand::Reg(r) },
            ],
            Operand::Reg(r + 1),
            r + 2,
        ),
        ReadConversion::ZextThenUitofp => (
            vec![
                Inst::Zext { dest: r, from: lt, to: Ty::I32, val: v },
                Inst::Uitofp { dest: r + 1, from: Ty::I32, val: Operand::Reg(r) },
            ],
            Operand::Reg(r + 1),
            r + 2,
        ),
        ReadConversion::Sitofp => (vec![Inst::Sitofp { dest: r, from: Ty::I32, val: v }], Operand::Reg(r), r + 1),
        ReadConversion::Uitofp => (vec![Inst::Uitofp { dest: r, from: Ty::I32, val: v }], Operand::Reg(r), r + 1),
        ReadConversion::BitcastFloatThenFpext => (
            vec![Inst::BitcastI32ToFloat { dest: r, val: v }, Inst::Fpext { dest: r + 1, val: Operand::Reg(r) }],
            Operand::Reg(r + 1),
            r + 2,
        ),
        ReadConversion::BitcastDouble => (vec![Inst::BitcastI64ToDouble { dest: r, val: v }], Operand::Reg(r), r + 1),
    };
    assert(insts_view(insts@) =~= conversion_insts(c, lt, vv, r as int).0);
    (insts, out, next)
}

/// Emits an inlined read planned by `plan` (see `buffer_read_insts`) and
/// returns its `double` result.
pub fn emit_buffer_read(b: &mut FnBuilder, plan: &BufferReadPlan, slot: Operand, scope: usize, offset: ReadOffset) -> (res: Operand)
    requires
        old(b)@.wf(),
        old(b)@.next_reg + 12 <= u64::MAX,
    ensures
        ({
            let (insts, v, next) = buffer_read_insts(
                plan.width_bytes,
                plan.load_ty,
                swap_view(plan.swap_intrinsic),
                plan.conversion,
                slot@,
                scope,
                offset,
                old(b)@.next_reg,
            );
            &&& final(b)@ == (FnBuilderV { next_reg: next, ..old(b)@ }).append_cur(insts)
            &&& res@ == v
        }),
        final(b)@.wf(),
{
    let ghost want = buffer_read_insts(
        plan.width_bytes,
        plan.load_ty,
        swap_view(plan.swap_intrinsic),
        plan.conversion,
        slot@,
        scope,
        offset,
        b@.next_reg,
    );
    let ghost offv = offset_insts(offset, b@.next_reg);
    let r0 = b.peek_reg();
    let mut insts: Vec<Inst> = Vec::new();
    let (o, r) = match offset {
        ReadOffset::I32(o) => (o, r0),
        ReadOffset::Double(d) => {
            insts.push(Inst::Fptosi { dest: r0, to: Ty::I32, val: d });
            (Operand::Reg(r0), r0 + 1)
        },
    };
    assert(insts_view(insts@) =~= offv.0);
    assert(o@ == offv.1 && r == offv.2);
    let ghost p0 = insts@;
    let mut body = read_body_exec(plan.width_bytes, plan.load_ty, slot, scope, o, r);
    let ghost bv = body@;
    insts.append(&mut body);
    let (mut si, sv, r2) = swap_exec(plan.swap_intrinsic, plan.load_ty, r + 7);
    let ghost p1 = insts@;
    let ghost siv = si@;
    insts.append(&mut si);
    let (mut ci, res, r3) = conversion_exec(plan.conversion, plan.load_ty, sv, r2);
    let ghost p2 = insts@;
    let ghost civ = ci@;
    insts.append(&mut ci);
    assert(insts_view(insts@) =~= insts_view(p0) + insts_view(bv) + insts_view(siv) + insts_view(civ));
    b.reserve_regs(r3 - r0);
    b.push_all(insts);
    res
}

/// Inlines `buf.<method>(offset)` when `buffer_read_plan` says so:
/// `receiver` is the data-pointer slot and alias scope of the receiver when
/// it is a tracked `Buffer.alloc(N)` local, `offset` the lowered argument.
/// `None`, with nothing emitted, when the call goes to the runtime.
pub fn try_emit_buffer_read_intrinsic(
    b: &mut FnBuilder,
    method: &str,
    nargs: usize,
    receiver: Option<(Operand, usize)>,
    offset: ReadOffset,
) -> (res: Option<Operand>)
    requires
        old(b)@.wf(),
        old(b)@.next_reg + 12 <= u64::MAX,
    ensures
        match (buffer_read_plan_spec(method@, nargs as nat, receiver is Some), receiver) {
            (Some((s, c)), Some((slot, scope))) => {
                let (insts, v, next) = buffer_read_insts(
                    s.width_bytes,
                    load_ty_for(s.width_bytes),
                    swap_intrinsic_for(s),
                    c,
                    slot@,
                    scope,
                    offset,
                    old(b)@.next_reg,
                );
                &&& final(b)@ == (FnBuilderV { next_reg: next, ..old(b)@ }).append_cur(insts)
                &&& res matches Some(o) && o@ == v
            },
            _ => res is None && final(b)@ == old(b)@,
        },
        final(b)@.wf(),
{
    let plan = match buffer_read_plan(method, nargs, receiver.is_some()) {
        Some(p) => p,
        None => return None,
    };
    match receiver {
        Some((slot, scope)) => Some(emit_buffer_read(b, &plan, slot, scope, offset)),
        None => None,
    }
}


/// Whether `m` starts with `s`.
pub open spec fn starts_with_seq(m: Seq<char>, s: Seq<char>) -> bool
    decreases s.len(),
{
    s.len() == 0 || (m.len() > 0 && m[0] == s[0] && starts_with_seq(m.drop_first(), s.drop_first()))
}

/// Whether `s` occurs in `m`.
pub open spec fn name_has(m: Seq<char>, s: Seq<char>) -> bool
    decreases m.len(),
{
    starts_with_seq(m, s) || (m.len() > 0 && name_has(m.drop_first(), s))
}



/// Whether `m` ends with `s`.
pub open spec fn ends_with_seq(m: Seq<char>, s: Seq<char>) -> bool {
    m.len() >= s.len() && starts_with_seq(m.skip(m.len() - s.len()), s)
}

/// The name facts of one accessor.
pub open spec fn name_parts_hold(m: Seq<char>, s: BufferNumericReadSpec) -> bool {
    &&& s.swap == ends_with_seq(m, "BE"@)
    &&& s.is_float == (starts_with_seq(m, "readFloat"@) || starts_with_seq(m, "readDouble"@))
    &&& s.width_bytes == if name_has(m, "8"@) {
        1u32
    } else if name_has(m, "16"@) {
        2u32
    } else if starts_with_seq(m, "readDouble"@) {
        8u32
    } else {
        4u32
    }
    &&& !s.is_float ==> (s.signed == !(starts_with_seq(m, "readUInt"@) || starts_with_seq(m, "readUint"@)))
}

proof fn lemma_reveal_parts()
    ensures
        "BE"@ == seq!['B', 'E'],
        "readFloat"@ == seq!['r', 'e', 'a', 'd', 'F', 'l', 'o', 'a', 't'],
        "readDouble"@ == seq!['r', 'e', 'a', 'd', 'D', 'o', 'u', 'b', 'l', 'e'],
        "8"@ == seq!['8'],
        "16"@ == seq!['1', '6'],
        "readUInt"@ == seq!['r', 'e', 'a', 'd', 'U', 'I', 'n', 't'],
        "readUint"@ == seq!['r', 'e', 'a', 'd', 'U', 'i', 'n', 't'],
{
    reveal_strlit("BE");
    reveal_strlit("readFloat");
    reveal_strlit("readDouble");
    reveal_strlit("8");
    reveal_strlit("16");
    reveal_strlit("readUInt");
    reveal_strlit("readUint");
}

proof fn lemma_parts_readUInt8()
    ensures
        name_parts_hold("readUInt8"@, classify_buffer_numeric_read_spec("readUInt8"@)->0),
{
    lemma_reveal_parts();
    reveal_with_fuel(name_has, 14);
    reveal_with_fuel(starts_with_seq, 11);
    reveal_strlit("readUInt8");
    reveal_strlit("readUint8");
    reveal_strlit("readInt8");
    reveal_strlit("readUInt16BE");
    reveal_strlit("readUint16BE");
    reveal_strlit("readUInt16LE");
    reveal_strlit("readUint16LE");
    reveal_strlit("readInt16BE");
    reveal_strlit("readInt16LE");
    reveal_strlit("readUInt32BE");
    reveal_strlit("readUint32BE");
    reveal_strlit("readUInt32LE");
    reveal_strlit("readUint32LE");
    reveal_strlit("readInt32BE");
    reveal_strlit("readInt32LE");
    reveal_strlit("readFloatBE");
    reveal_strlit("readFloatLE");
    reveal_strlit("readDoubleBE");
    reveal_strlit("readDoubleLE");
}

proof fn lemma_parts_readUint8()
    ensures
        name_parts_hold("readUint8"@, classify_buffer_numeric_read_spec("readUint8"@)->0),
{
    lemma_reveal_parts();
    reveal_with_fuel(name_has, 14);
    reveal_with_fuel(starts_with_seq, 11);
    reveal_strlit("readUInt8");
    reveal_strlit("readUint8");
    reveal_strlit("readInt8");
    reveal_strlit("readUInt16BE");
    reveal_strlit("readUint16BE");
    reveal_strlit("readUInt16LE");
    reveal_strlit("readUint16LE");
    reveal_strlit("readInt16BE");
    reveal_strlit("readInt16LE");
    reveal_strlit("readUInt32BE");
    reveal_strlit("readUint32BE");
    reveal_strlit("readUInt32LE");
    reveal_strlit("readUint32LE");
    reveal_strlit("readInt32BE");
    reveal_strlit("readInt32LE");
    reveal_strlit("readFloatBE");
    reveal_strlit("readFloatLE");
    reveal_strlit("readDoubleBE");
    reveal_strlit("readDoubleLE");
}

proof fn lemma_parts_readInt8()
    ensures
        name_parts_hold("readInt8"@, classify_buffer_numeric_read_spec("readInt8"@)->0),
{
    lemma_reveal_parts();
    reveal_with_fuel(name_has, 14);
    reveal_with_fuel(starts_with_seq, 11);
    reveal_strlit("readUInt8");
    reveal_strlit("readUint8");
    reveal_strlit("readInt8");
    reveal_strlit("readUInt16BE");
    reveal_strlit("readUint16BE");
    reveal_strlit("readUInt16LE");
    reveal_strlit("readUint16LE");
    reveal_strlit("readInt16BE");
    reveal_strlit("readInt16LE");
    reveal_strlit("readUInt32BE");
    reveal_strlit("readUint32BE");
    reveal_strlit("readUInt32LE");
    reveal_strlit("readUint32LE");
    reveal_strlit("readInt32BE");
    reveal_strlit("readInt32LE");
    reveal_strlit("readFloatBE");
    reveal_strlit("readFloatLE");
    reveal_strlit("readDoubleBE");
    reveal_strlit("readDoubleLE");
}

proof fn lemma_parts_readUInt16BE()
    ensures
        name_parts_hold("readUInt16BE"@, classify_buffer_numeric_read_spec("readUInt16BE"@)->0),
{
    lemma_reveal_parts();
    reveal_with_fuel(name_has, 14);
    reveal_with_fuel(starts_with_seq, 11);
    reveal_strlit("readUInt8");
    reveal_strlit("readUint8");
    reveal_strlit("readInt8");
    reveal_strlit("readUInt16BE");
    reveal_strlit("readUint16BE");
    reveal_strlit("readUInt16LE");
    reveal_strlit("readUint16LE");
    reveal_strlit("readInt16BE");
    reveal_strlit("readInt16LE");
    reveal_strlit("readUInt32BE");
    reveal_strlit("readUint32BE");
    reveal_strlit("readUInt32LE");
    reveal_strlit("readUint32LE");
    reveal_strlit("readInt32BE");
    reveal_strlit("readInt32LE");
    reveal_strlit("readFloatBE");
    reveal_strlit("readFloatLE");
    reveal_strlit("readDoubleBE");
    reveal_strlit("readDoubleLE");
}

proof fn lemma_parts_readUint16BE()
    ensures
        name_parts_hold("readUint16BE"@, classify_buffer_numeric_read_spec("readUint16BE"@)->0),
{
    lemma_reveal_parts();
    reveal_with_fuel(name_has, 14);
    reveal_with_fuel(starts_with_seq, 11);
    reveal_strlit("readUInt8");
    reveal_strlit("readUint8");
    reveal_strlit("readInt8");
    reveal_strlit("readUInt16BE");
    reveal_strlit("readUint16BE");
    reveal_strlit("readUInt16LE");
    reveal_strlit("readUint16LE");
    reveal_strlit("readInt16BE");
    reveal_strlit("readInt16LE");
    reveal_strlit("readUInt32BE");
    reveal_strlit("readUint32BE");
    reveal_strlit("readUInt32LE");
    reveal_strlit("readUint32LE");
    reveal_strlit("readInt32BE");
    reveal_strlit("readInt32LE");
    reveal_strlit("readFloatBE");
    reveal_strlit("readFloatLE");
    reveal_strlit("readDoubleBE");
    reveal_strlit("readDoubleLE");
}

proof fn lemma_parts_readUInt16LE()
    ensures
        name_parts_hold("readUInt16LE"@, classify_buffer_numeric_read_spec("readUInt16LE"@)->0),
{
    lemma_reveal_parts();
    reveal_with_fuel(name_has, 14);
    reveal_with_fuel(starts_with_seq, 11);
    reveal_strlit("readUInt8");
    reveal_strlit("readUint8");
    reveal_strlit("readInt8");
    reveal_strlit("readUInt16BE");
    reveal_strlit("readUint16BE");
    reveal_strlit("readUInt16LE");
    reveal_strlit("readUint16LE");
    reveal_strlit("readInt16BE");
    reveal_strlit("readInt16LE");
    reveal_strlit("readUInt32BE");
    reveal_strlit("readUint32BE");
    reveal_strlit("readUInt32LE");
    reveal_strlit("readUint32LE");
    reveal_strlit("readInt32BE");
    reveal_strlit("readInt32LE");
    reveal_strlit("readFloatBE");
    reveal_strlit("readFloatLE");
    reveal_strlit("readDoubleBE");
    reveal_strlit("readDoubleLE");
}

proof fn lemma_parts_readUint16LE()
    ensures
        name_parts_hold("readUint16LE"@, classify_buffer_numeric_read_spec("readUint16LE"@)->0),
{
    lemma_reveal_parts();
    reveal_with_fuel(name_has, 14);
    reveal_with_fuel(starts_with_seq, 11);
    reveal_strlit("readUInt8");
    reveal_strlit("readUint8");
    reveal_strlit("readInt8");
    reveal_strlit("readUInt16BE");
    reveal_strlit("readUint16BE");
    reveal_strlit("readUInt16LE");
    reveal_strlit("readUint16LE");
    reveal_strlit("readInt16BE");
    reveal_strlit("readInt16LE");
    reveal_strlit("readUInt32BE");
    reveal_strlit("readUint32BE");
    reveal_strlit("readUInt32LE");
    reveal_strlit("readUint32LE");
    reveal_strlit("readInt32BE");
    reveal_strlit("readInt32LE");
    reveal_strlit("readFloatBE");
    reveal_strlit("readFloatLE");
    reveal_strlit("readDoubleBE");
    reveal_strlit("readDoubleLE");
}

proof fn lemma_parts_readInt16BE()
    ensures
        name_parts_hold("readInt16BE"@, classify_buffer_numeric_read_spec("readInt16BE"@)->0),
{
    lemma_reveal_parts();
    reveal_with_fuel(name_has, 14);
    reveal_with_fuel(starts_with_seq, 11);
    reveal_strlit("readUInt8");
    reveal_strlit("readUint8");
    reveal_strlit("readInt8");
    reveal_strlit("readUInt16BE");
    reveal_strlit("readUint16BE");
    reveal_strlit("readUInt16LE");
    reveal_strlit("readUint16LE");
    reveal_strlit("readInt16BE");
    reveal_strlit("readInt16LE");
    reveal_strlit("readUInt32BE");
    reveal_strlit("readUint32BE");
    reveal_strlit("readUInt32LE");
    reveal_strlit("readUint32LE");
    reveal_strlit("readInt32BE");
    reveal_strlit("readInt32LE");
    reveal_strlit("readFloatBE");
    reveal_strlit("readFloatLE");
    reveal_strlit("readDoubleBE");
    reveal_strlit("readDoubleLE");
}

proof fn lemma_parts_readInt16LE()
    ensures
        name_parts_hold("readInt16LE"@, classify_buffer_numeric_read_spec("readInt16LE"@)->0),
{
    lemma_reveal_parts();
    reveal_with_fuel(name_has, 14);
    reveal_with_fuel(starts_with_seq, 11);
    reveal_strlit("readUInt8");
    reveal_strlit("readUint8");
    reveal_strlit("readInt8");
    reveal_strlit("readUInt16BE");
    reveal_strlit("readUint16BE");
    reveal_strlit("readUInt16LE");
    reveal_strlit("readUint16LE");
    reveal_strlit("readInt16BE");
    reveal_strlit("readInt16LE");
    reveal_strlit("readUInt32BE");
    reveal_strlit("readUint32BE");
    reveal_strlit("readUInt32LE");
    reveal_strlit("readUint32LE");
    reveal_strlit("readInt32BE");
    reveal_strlit("readInt32LE");
    reveal_strlit("readFloatBE");
    reveal_strlit("readFloatLE");
    reveal_strlit("readDoubleBE");
    reveal_strlit("readDoubleLE");
}

proof fn lemma_parts_readUInt32BE()
    ensures
        name_parts_hold("readUInt32BE"@, classify_buffer_numeric_read_spec("readUInt32BE"@)->0),
{
    lemma_reveal_parts();
    reveal_with_fuel(name_has, 14);
    reveal_with_fuel(starts_with_seq, 11);
    reveal_strlit("readUInt8");
    reveal_strlit("readUint8");
    reveal_strlit("readInt8");
    reveal_strlit("readUInt16BE");
    reveal_strlit("readUint16BE");
    reveal_strlit("readUInt16LE");
    reveal_strlit("readUint16LE");
    reveal_strlit("readInt16BE");
    reveal_strlit("readInt16LE");
    reveal_strlit("readUInt32BE");
    reveal_strlit("readUint32BE");
    reveal_strlit("readUInt32LE");
    reveal_strlit("readUint32LE");
    reveal_strlit("readInt32BE");
    reveal_strlit("readInt32LE");
    reveal_strlit("readFloatBE");
    reveal_strlit("readFloatLE");
    reveal_strlit("readDoubleBE");
    reveal_strlit("readDoubleLE");
}

proof fn lemma_parts_readUint32BE()
    ensures
        name_parts_hold("readUint32BE"@, classify_buffer_numeric_read_spec("readUint32BE"@)->0),
{
    lemma_reveal_parts();
    reveal_with_fuel(name_has, 14);
    reveal_with_fuel(starts_with_seq, 11);
    reveal_strlit("readUInt8");
    reveal_strlit("readUint8");
    reveal_strlit("readInt8");
    reveal_strlit("readUInt16BE");
    reveal_strlit("readUint16BE");
    reveal_strlit("readUInt16LE");
    reveal_strlit("readUint16LE");
    reveal_strlit("readInt16BE");
    reveal_strlit("readInt16LE");
    reveal_strlit("readUInt32BE");
    reveal_strlit("readUint32BE");
    reveal_strlit("readUInt32LE");
    reveal_strlit("readUint32LE");
    reveal_strlit("readInt32BE");
    reveal_strlit("readInt32LE");
    reveal_strlit("readFloatBE");
    reveal_strlit("readFloatLE");
    reveal_strlit("readDoubleBE");
    reveal_strlit("readDoubleLE");
}

proof fn lemma_parts_readUInt32LE()
    ensures
        name_parts_hold("readUInt32LE"@, classify_buffer_numeric_read_spec("readUInt32LE"@)->0),
{
    lemma_reveal_parts();
    reveal_with_fuel(name_has, 14);
    reveal_with_fuel(starts_with_seq, 11);
    reveal_strlit("readUInt8");
    reveal_strlit("readUint8");
    reveal_strlit("readInt8");
    reveal_strlit("readUInt16BE");
    reveal_strlit("readUint16BE");
    reveal_strlit("readUInt16LE");
    reveal_strlit("readUint16LE");
    reveal_strlit("readInt16BE");
    reveal_strlit("readInt16LE");
    reveal_strlit("readUInt32BE");
    reveal_strlit("readUint32BE");
    reveal_strlit("readUInt32LE");
    reveal_strlit("readUint32LE");
    reveal_strlit("readInt32BE");
    reveal_strlit("readInt32LE");
    reveal_strlit("readFloatBE");
    reveal_strlit("readFloatLE");
    reveal_strlit("readDoubleBE");
    reveal_strlit("readDoubleLE");
}

proof fn lemma_parts_readUint32LE()
    ensures
        name_parts_hold("readUint32LE"@, classify_buffer_numeric_read_spec("readUint32LE"@)->0),
{
    lemma_reveal_parts();
    reveal_with_fuel(name_has, 14);
    reveal_with_fuel(starts_with_seq, 11);
    reveal_strlit("readUInt8");
    reveal_strlit("readUint8");
    reveal_strlit("readInt8");
    reveal_strlit("readUInt16BE");
    reveal_strlit("readUint16BE");
    reveal_strlit("readUInt16LE");
    reveal_strlit("readUint16LE");
    reveal_strlit("readInt16BE");
    reveal_strlit("readInt16LE");
    reveal_strlit("readUInt32BE");
    reveal_strlit("readUint32BE");
    reveal_strlit("readUInt32LE");
    reveal_strlit("readUint32LE");
    reveal_strlit("readInt32BE");
    reveal_strlit("readInt32LE");
    reveal_strlit("readFloatBE");
    reveal_strlit("readFloatLE");
    reveal_strlit("readDoubleBE");
    reveal_strlit("readDoubleLE");
}

proof fn lemma_parts_readInt32BE()
    ensures
        name_parts_hold("readInt32BE"@, classify_buffer_numeric_read_spec("readInt32BE"@)->0),
{
    lemma_reveal_parts();
    reveal_with_fuel(name_has, 14);
    reveal_with_fuel(starts_with_seq, 11);
    reveal_strlit("readUInt8");
    reveal_strlit("readUint8");
    reveal_strlit("readInt8");
    reveal_strlit("readUInt16BE");
    reveal_strlit("readUint16BE");
    reveal_strlit("readUInt16LE");
    reveal_strlit("readUint16LE");
    reveal_strlit("readInt16BE");
    reveal_strlit("readInt16LE");
    reveal_strlit("readUInt32BE");
    reveal_strlit("readUint32BE");
    reveal_strlit("readUInt32LE");
    reveal_strlit("readUint32LE");
    reveal_strlit("readInt32BE");
    reveal_strlit("readInt32LE");
    reveal_strlit("readFloatBE");
    reveal_strlit("readFloatLE");
    reveal_strlit("readDoubleBE");
    reveal_strlit("readDoubleLE");
}

proof fn lemma_parts_readInt32LE()
    ensures
        name_parts_hold("readInt32LE"@, classify_buffer_numeric_read_spec("readInt32LE"@)->0),
{
    lemma_reveal_parts();
    reveal_with_fuel(name_has, 14);
    reveal_with_fuel(starts_with_seq, 11);
    reveal_strlit("readUInt8");
    reveal_strlit("readUint8");
    reveal_strlit("readInt8");
    reveal_strlit("readUInt16BE");
    reveal_strlit("readUint16BE");
    reveal_strlit("readUInt16LE");
    reveal_strlit("readUint16LE");
    reveal_strlit("readInt16BE");
    reveal_strlit("readInt16LE");
    reveal_strlit("readUInt32BE");
    reveal_strlit("readUint32BE");
    reveal_strlit("readUInt32LE");
    reveal_strlit("readUint32LE");
    reveal_strlit("readInt32BE");
    reveal_strlit("readInt32LE");
    reveal_strlit("readFloatBE");
    reveal_strlit("readFloatLE");
    reveal_strlit("readDoubleBE");
    reveal_strlit("readDoubleLE");
}

proof fn lemma_parts_readFloatBE()
    ensures
        name_parts_hold("readFloatBE"@, classify_buffer_numeric_read_spec("readFloatBE"@)->0),
{
    lemma_reveal_parts();
    reveal_with_fuel(name_has, 14);
    reveal_with_fuel(starts_with_seq, 11);
    reveal_strlit("readUInt8");
    reveal_strlit("readUint8");
    reveal_strlit("readInt8");
    reveal_strlit("readUInt16BE");
    reveal_strlit("readUint16BE");
    reveal_strlit("readUInt16LE");
    reveal_strlit("readUint16LE");
    reveal_strlit("readInt16BE");
    reveal_strlit("readInt16LE");
    reveal_strlit("readUInt32BE");
    reveal_strlit("readUint32BE");
    reveal_strlit("readUInt32LE");
    reveal_strlit("readUint32LE");
    reveal_strlit("readInt32BE");
    reveal_strlit("readInt32LE");
    reveal_strlit("readFloatBE");
    reveal_strlit("readFloatLE");
    reveal_strlit("readDoubleBE");
    reveal_strlit("readDoubleLE");
}

proof fn lemma_parts_readFloatLE()
    ensures
        name_parts_hold("readFloatLE"@, classify_buffer_numeric_read_spec("readFloatLE"@)->0),
{
    lemma_reveal_parts();
    reveal_with_fuel(name_has, 14);
    reveal_with_fuel(starts_with_seq, 11);
    reveal_strlit("readUInt8");
    reveal_strlit("readUint8");
    reveal_strlit("readInt8");
    reveal_strlit("readUInt16BE");
    reveal_strlit("readUint16BE");
    reveal_strlit("readUInt16LE");
    reveal_strlit("readUint16LE");
    reveal_strlit("readInt16BE");
    reveal_strlit("readInt16LE");
    reveal_strlit("readUInt32BE");
    reveal_strlit("readUint32BE");
    reveal_strlit("readUInt32LE");
    reveal_strlit("readUint32LE");
    reveal_strlit("readInt32BE");
    reveal_strlit("readInt32LE");
    reveal_strlit("readFloatBE");
    reveal_strlit("readFloatLE");
    reveal_strlit("readDoubleBE");
    reveal_strlit("readDoubleLE");
}

proof fn lemma_parts_readDoubleBE()
    ensures
        name_parts_hold("readDoubleBE"@, classify_buffer_numeric_read_spec("readDoubleBE"@)->0),
{
    lemma_reveal_parts();
    reveal_with_fuel(name_has, 14);
    reveal_with_fuel(starts_with_seq, 11);
    reveal_strlit("readUInt8");
    reveal_strlit("readUint8");
    reveal_strlit("readInt8");
    reveal_strlit("readUInt16BE");
    reveal_strlit("readUint16BE");
    reveal_strlit("readUInt16LE");
    reveal_strlit("readUint16LE");
    reveal_strlit("readInt16BE");
    reveal_strlit("readInt16LE");
    reveal_strlit("readUInt32BE");
    reveal_strlit("readUint32BE");
    reveal_strlit("readUInt32LE");
    reveal_strlit("readUint32LE");
    reveal_strlit("readInt32BE");
    reveal_strlit("readInt32LE");
    reveal_strlit("readFloatBE");
    reveal_strlit("readFloatLE");
    reveal_strlit("readDoubleBE");
    reveal_strlit("readDoubleLE");
}

proof fn lemma_parts_readDoubleLE()
    ensures
        name_parts_hold("readDoubleLE"@, classify_buffer_numeric_read_spec("readDoubleLE"@)->0),
{
    lemma_reveal_parts();
    reveal_with_fuel(name_has, 14);
    reveal_with_fuel(starts_with_seq, 11);
    reveal_strlit("readUInt8");
    reveal_strlit("readUint8");
    reveal_strlit("readInt8");
    reveal_strlit("readUInt16BE");
    reveal_strlit("readUint16BE");
    reveal_strlit("readUInt16LE");
    reveal_strlit("readUint16LE");
    reveal_strlit("readInt16BE");
    reveal_strlit("readInt16LE");
    reveal_strlit("readUInt32BE");
    reveal_strlit("readUint32BE");
    reveal_strlit("readUInt32LE");
    reveal_strlit("readUint32LE");
    reveal_strlit("readInt32BE");
    reveal_strlit("readInt32LE");
    reveal_strlit("readFloatBE");
    reveal_strlit("readFloatLE");
    reveal_strlit("readDoubleBE");
    reveal_strlit("readDoubleLE");
}

/// An accessor's name spells how it reads, as substrings of the name: it
/// byte-swaps exactly when the name ends in `BE`; it reads a float exactly
/// when the name starts `readFloat` or `readDouble`; it reads one byte
/// when the name contains `8`, two when it contains `16`, eight for
/// `readDouble` and four otherwise; an integer read is signed exactly when
/// the name starts with neither `readUInt` nor `readUint`.
pub proof fn law_buffer_read_name_parts(m: Seq<char>)
    ensures
        classify_buffer_numeric_read_spec(m) matches Some(s) ==> name_parts_hold(m, s),
{
    if classify_buffer_numeric_read_spec(m) is Some {
        if m == "readUInt8"@ { lemma_parts_readUInt8(); }
        if m == "readUint8"@ { lemma_parts_readUint8(); }
        if m == "readInt8"@ { lemma_parts_readInt8(); }
        if m == "readUInt16BE"@ { lemma_parts_readUInt16BE(); }
        if m == "readUint16BE"@ { lemma_parts_readUint16BE(); }
        if m == "readUInt16LE"@ { lemma_parts_readUInt16LE(); }
        if m == "readUint16LE"@ { lemma_parts_readUint16LE(); }
        if m == "readInt16BE"@ { lemma_parts_readInt16BE(); }
        if m == "readInt16LE"@ { lemma_parts_readInt16LE(); }
        if m == "readUInt32BE"@ { lemma_parts_readUInt32BE(); }
        if m == "readUint32BE"@ { lemma_parts_readUint32BE(); }
        if m == "readUInt32LE"@ { lemma_parts_readUInt32LE(); }
        if m == "readUint32LE"@ { lemma_parts_readUint32LE(); }
        if m == "readInt32BE"@ { lemma_parts_readInt32BE(); }
        if m == "readInt32LE"@ { lemma_parts_readInt32LE(); }
        if m == "readFloatBE"@ { lemma_parts_readFloatBE(); }
        if m == "readFloatLE"@ { lemma_parts_readFloatLE(); }
        if m == "readDoubleBE"@ { lemma_parts_readDoubleBE(); }
        if m == "readDoubleLE"@ { lemma_parts_readDoubleLE(); }
    }
}

} // verus!
