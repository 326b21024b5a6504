//! A structured model of the LLVM IR that call lowering emits: SSA registers,
//! operands, instructions, basic blocks and the per-function state the
//! emitters thread through (current block, register counter, entry-block
//! allocas, the string pool and the pending external declarations).
//!
//! Instruction text is not produced here; each instruction keeps its parts,
//! so contracts can say exactly what was emitted.

use vstd::prelude::*;

use crate::text::str_eq;

verus! {

/// An LLVM type.
#[derive(Copy, Clone, Debug, PartialEq, Eq, Structural)]
pub enum Ty {
    Double,
    I64,
    I32,
    I16,
    I8,
    I1,
    Float,
    Ptr,
    Void,
}

/// A NaN-boxed JS constant, used as a `double` literal or as its `i64` bits.
#[derive(Copy, Clone, Debug, PartialEq, Eq, Structural)]
pub enum JsTag {
    Undefined,
    Null,
    True,
    False,
}

/// An operand of an instruction.
#[derive(Clone, Debug)]
pub enum Operand {
    /// An SSA register created by the builder (`%r<n>`).
    Reg(u64),
    /// A value produced elsewhere (a lowered sub-expression), kept verbatim.
    Ext(String),
    /// An integer literal.
    Int(u64),
    /// The `double` literal `0.0`.
    Zero,
    /// A `double` literal with an integral value (`n.0`).
    Num(u64),
    /// The canonical quiet NaN `double`.
    Nan,
    /// A NaN-boxed constant.
    Tag(JsTag),
    /// The null pointer.
    Null,
    /// The rodata byte global of string-pool entry `i`.
    StrBytes(usize),
    /// The NaN-boxed handle global of string-pool entry `i`.
    StrHandle(usize),
    /// A named global (`@name`).
    Global(String),
    /// The NaN-boxed int32 `n` as a `double` (a class id as a value).
    Int32Box(u32),
}

/// The mathematical value of an operand.
pub enum OperandV {
    Reg(u64),
    Ext(Seq<char>),
    Int(u64),
    Zero,
    Num(u64),
    Nan,
    Tag(JsTag),
    Null,
    StrBytes(usize),
    StrHandle(usize),
    Global(Seq<char>),
    Int32Box(u32),
}

impl View for Operand {
    type V = OperandV;

    open spec fn view(&self) -> OperandV {
        match self {
            Operand::Reg(r) => OperandV::Reg(*r),
            Operand::Ext(s) => OperandV::Ext(s@),
            Operand::Int(n) => OperandV::Int(*n),
            Operand::Zero => OperandV::Zero,
            Operand::Num(n) => OperandV::Num(*n),
            Operand::Nan => OperandV::Nan,
            Operand::Tag(t) => OperandV::Tag(*t),
            Operand::Null => OperandV::Null,
            Operand::StrBytes(i) => OperandV::StrBytes(*i),
            Operand::StrHandle(i) => OperandV::StrHandle(*i),
            Operand::Global(g) => OperandV::Global(g@),
            Operand::Int32Box(n) => OperandV::Int32Box(*n),
        }
    }
}

/// Copies an operand.
pub fn copy_operand(o: &Operand) -> (res: Operand)
    ensures
        res@ == o@,
{
    match o {
        Operand::Reg(r) => Operand::Reg(*r),
        Operand::Ext(s) => Operand::Ext(s.clone()),
        Operand::Int(n) => Operand::Int(*n),
        Operand::Zero => Operand::Zero,
        Operand::Num(n) => Operand::Num(*n),
        Operand::Nan => Operand::Nan,
        Operand::Tag(t) => Operand::Tag(*t),
        Operand::Null => Operand::Null,
        Operand::StrBytes(i) => Operand::StrBytes(*i),
        Operand::StrHandle(i) => Operand::StrHandle(*i),
        Operand::Global(g) => Operand::Global(g.clone()),
        Operand::Int32Box(n) => Operand::Int32Box(*n),
    }
}

/// A typed argument of a call.
pub type Arg = (Ty, Operand);

/// The views of a list of typed arguments.
pub open spec fn args_view(args: Seq<Arg>) -> Seq<(Ty, OperandV)> {
    args.map_values(|a: Arg| (a.0, a.1@))
}

/// The views of a list of operands.
pub open spec fn operands_view(ops: Seq<Operand>) -> Seq<OperandV> {
    ops.map_values(|o: Operand| o@)
}

/// One instruction. Blocks are referred to by their index in the function.
#[derive(Clone, Debug)]
pub enum Inst {
    /// `dest = call ret @callee(args)`; `dest` is absent for a void call.
    Call { dest: Option<u64>, ret: Ty, callee: String, args: Vec<Arg> },
    /// `dest = bitcast double val to i64`.
    BitcastDoubleToI64 { dest: u64, val: Operand },
    /// `dest = bitcast i64 val to double`.
    BitcastI64ToDouble { dest: u64, val: Operand },
    /// `dest = (lhs == rhs)` on integers of type `ty`.
    IntEq { dest: u64, ty: Ty, lhs: Operand, rhs: Operand },
    /// `dest = (lhs != rhs)` on integers of type `ty`.
    IntNe { dest: u64, ty: Ty, lhs: Operand, rhs: Operand },
    /// `dest = select i1 cond, ty if_true, ty if_false`.
    Select { dest: u64, cond: Operand, ty: Ty, if_true: Operand, if_false: Operand },
    /// `dest = getelementptr elem, ptr base, i64 index`.
    Gep { dest: u64, elem: Ty, base: Operand, index: u64 },
    /// `dest = getelementptr elem, ptr base, i64 index` with a register
    /// or other operand as the index.
    GepDyn { dest: u64, elem: Ty, base: Operand, index: Operand },
    /// `dest = getelementptr [len x double], ptr base, i64 0, i64 0`.
    ArrayBase { dest: u64, len: u64, base: Operand },
    /// `dest = add ty lhs, rhs`.
    Add { dest: u64, ty: Ty, lhs: Operand, rhs: Operand },
    /// `dest = (lhs <= rhs)`, unsigned, on integers of type `ty`.
    IntUle { dest: u64, ty: Ty, lhs: Operand, rhs: Operand },
    /// `dest = ptrtoint ptr val to i64`.
    PtrToInt { dest: u64, val: Operand },
    /// `dest = inttoptr i64 val to ptr`.
    IntToPtr { dest: u64, val: Operand },
    /// `store ty val, ptr ptr`.
    Store { ty: Ty, val: Operand, ptr: Operand },
    /// `dest = load ty, ptr ptr`.
    Load { dest: u64, ty: Ty, ptr: Operand },
    /// `dest = alloca [count x elem]` (entry block).
    Alloca { dest: u64, elem: Ty, count: u64 },
    /// `dest = alloca ty` (entry block): one stack slot.
    AllocaSlot { dest: u64, ty: Ty },
    /// `br label target`.
    Br { target: usize },
    /// `br i1 cond, label if_true, label if_false`.
    CondBr { cond: Operand, if_true: usize, if_false: usize },
    /// `dest = phi ty [value, block], ...`.
    Phi { dest: u64, ty: Ty, incoming: Vec<(Operand, usize)> },
    /// `dest = (lhs != rhs)` on `double`s, true when unordered (`fcmp une`).
    FloatNe { dest: u64, lhs: Operand, rhs: Operand },
    /// `dest = sitofp from val to double`.
    Sitofp { dest: u64, from: Ty, val: Operand },
    /// `dest = fptosi double val to to`.
    Fptosi { dest: u64, to: Ty, val: Operand },
    /// `dest = uitofp from val to double`.
    Uitofp { dest: u64, from: Ty, val: Operand },
    /// `dest = sext from val to to`.
    Sext { dest: u64, from: Ty, to: Ty, val: Operand },
    /// `dest = zext from val to to`.
    Zext { dest: u64, from: Ty, to: Ty, val: Operand },
    /// `dest = bitcast i32 val to float`.
    BitcastI32ToFloat { dest: u64, val: Operand },
    /// `dest = fpext float val to double`.
    Fpext { dest: u64, val: Operand },
    /// `dest = getelementptr elem, ptr base, i32 offset` with a constant,
    /// possibly negative, offset.
    GepOffset { dest: u64, elem: Ty, base: Operand, offset: i64 },
    /// `dest = getelementptr inbounds elem, ptr base, i32 index`.
    GepInbounds { dest: u64, elem: Ty, base: Operand, index: Operand },
    /// `dest = load ty, ptr ptr, !invariant.load`: a load of memory that
    /// does not change.
    LoadInvariant { dest: u64, ty: Ty, ptr: Operand },
    /// `dest = load ty, ptr ptr` tagged with the alias-scope metadata of
    /// buffer scope `scope`.
    LoadScoped { dest: u64, ty: Ty, ptr: Operand, scope: usize },
    /// NaN-unboxing of a pointer-like value to its i64 payload.
    UnboxToI64 { dest: u64, val: Operand },
    /// The string handle (i64) of a NaN-boxed string value.
    UnboxStrHandle { dest: u64, val: Operand },
    /// NaN-boxing of an i32 truth value (non-zero is `true`) as a boolean.
    NanboxBool { dest: u64, val: Operand },
    /// NaN-boxing of an i64 pointer payload.
    NanboxPointer { dest: u64, val: Operand },
    /// NaN-boxing of an i64 string pointer.
    NanboxString { dest: u64, val: Operand },
    /// NaN-boxing of an i64 bigint pointer.
    NanboxBigInt { dest: u64, val: Operand },
}

/// The mathematical value of an instruction.
pub enum InstV {
    Call { dest: Option<u64>, ret: Ty, callee: Seq<char>, args: Seq<(Ty, OperandV)> },
    BitcastDoubleToI64 { dest: u64, val: OperandV },
    BitcastI64ToDouble { dest: u64, val: OperandV },
    IntEq { dest: u64, ty: Ty, lhs: OperandV, rhs: OperandV },
    IntNe { dest: u64, ty: Ty, lhs: OperandV, rhs: OperandV },
    Select { dest: u64, cond: OperandV, ty: Ty, if_true: OperandV, if_false: OperandV },
    Gep { dest: u64, elem: Ty, base: OperandV, index: u64 },
    GepDyn { dest: u64, elem: Ty, base: OperandV, index: OperandV },
    ArrayBase { dest: u64, len: u64, base: OperandV },
    Add { dest: u64, ty: Ty, lhs: OperandV, rhs: OperandV },
    IntUle { dest: u64, ty: Ty, lhs: OperandV, rhs: OperandV },
    PtrToInt { dest: u64, val: OperandV },
    IntToPtr { dest: u64, val: OperandV },
    Store { ty: Ty, val: OperandV, ptr: OperandV },
    Load { dest: u64, ty: Ty, ptr: OperandV },
    Alloca { dest: u64, elem: Ty, count: u64 },
    AllocaSlot { dest: u64, ty: Ty },
    Br { target: usize },
    CondBr { cond: OperandV, if_true: usize, if_false: usize },
    Phi { dest: u64, ty: Ty, incoming: Seq<(OperandV, usize)> },
    FloatNe { dest: u64, lhs: OperandV, rhs: OperandV },
    Sitofp { dest: u64, from: Ty, val: OperandV },
    Fptosi { dest: u64, to: Ty, val: OperandV },
    Uitofp { dest: u64, from: Ty, val: OperandV },
    Sext { dest: u64, from: Ty, to: Ty, val: OperandV },
    Zext { dest: u64, from: Ty, to: Ty, val: OperandV },
    BitcastI32ToFloat { dest: u64, val: OperandV },
    Fpext { dest: u64, val: OperandV },
    GepOffset { dest: u64, elem: Ty, base: OperandV, offset: i64 },
    GepInbounds { dest: u64, elem: Ty, base: OperandV, index: OperandV },
    LoadInvariant { dest: u64, ty: Ty, ptr: OperandV },
    LoadScoped { dest: u64, ty: Ty, ptr: OperandV, scope: usize },
    UnboxToI64 { dest: u64, val: OperandV },
    UnboxStrHandle { dest: u64, val: OperandV },
    NanboxBool { dest: u64, val: OperandV },
    NanboxPointer { dest: u64, val: OperandV },
    NanboxString { dest: u64, val: OperandV },
    NanboxBigInt { dest: u64, val: OperandV },
}

impl View for Inst {
    type V = InstV;

    open spec fn view(&self) -> InstV {
        match self {
            Inst::Call { dest, ret, callee, args } => InstV::Call {
                dest: *dest,
                ret: *ret,
                callee: callee@,
                args: args_view(args@),
            },
            Inst::BitcastDoubleToI64 { dest, val } => InstV::BitcastDoubleToI64 { dest: *dest, val: val@ },
            Inst::BitcastI64ToDouble { dest, val } => InstV::BitcastI64ToDouble { dest: *dest, val: val@ },
            Inst::IntEq { dest, ty, lhs, rhs } => InstV::IntEq {
                dest: *dest,
                ty: *ty,
                lhs: lhs@,
                rhs: rhs@,
            },
            Inst::IntNe { dest, ty, lhs, rhs } => InstV::IntNe {
                dest: *dest,
                ty: *ty,
                lhs: lhs@,
                rhs: rhs@,
            },
            Inst::Select { dest, cond, ty, if_true, if_false } => InstV::Select {
                dest: *dest,
                cond: cond@,
                ty: *ty,
                if_true: if_true@,
                if_false: if_false@,
            },
            Inst::Gep { dest, elem, base, index } => InstV::Gep {
                dest: *dest,
                elem: *elem,
                base: base@,
                index: *index,
            },
            Inst::GepDyn { dest, elem, base, index } => InstV::GepDyn {
                dest: *dest,
                elem: *elem,
                base: base@,
                index: index@,
            },
            Inst::ArrayBase { dest, len, base } => InstV::ArrayBase { dest: *dest, len: *len, base: base@ },
            Inst::Add { dest, ty, lhs, rhs } => InstV::Add { dest: *dest, ty: *ty, lhs: lhs@, rhs: rhs@ },
            Inst::IntUle { dest, ty, lhs, rhs } => InstV::IntUle { dest: *dest, ty: *ty, lhs: lhs@, rhs: rhs@ },
            Inst::PtrToInt { dest, val } => InstV::PtrToInt { dest: *dest, val: val@ },
            Inst::IntToPtr { dest, val } => InstV::IntToPtr { dest: *dest, val: val@ },
            Inst::Store { ty, val, ptr } => InstV::Store { ty: *ty, val: val@, ptr: ptr@ },
            Inst::Load { dest, ty, ptr } => InstV::Load { dest: *dest, ty: *ty, ptr: ptr@ },
            Inst::Alloca { dest, elem, count } => InstV::Alloca { dest: *dest, elem: *elem, count: *count },
            Inst::AllocaSlot { dest, ty } => InstV::AllocaSlot { dest: *dest, ty: *ty },
            Inst::Br { target } => InstV::Br { target: *target },
            Inst::CondBr { cond, if_true, if_false } => InstV::CondBr {
                cond: cond@,
                if_true: *if_true,
                if_false: *if_false,
            },
            Inst::Phi { dest, ty, incoming } => InstV::Phi {
                dest: *dest,
                ty: *ty,
                incoming: incoming@.map_values(|p: (Operand, usize)| (p.0@, p.1)),
            },
            Inst::FloatNe { dest, lhs, rhs } => InstV::FloatNe { dest: *dest, lhs: lhs@, rhs: rhs@ },
            Inst::Sitofp { dest, from, val } => InstV::Sitofp { dest: *dest, from: *from, val: val@ },
            Inst::Fptosi { dest, to, val } => InstV::Fptosi { dest: *dest, to: *to, val: val@ },
            Inst::Uitofp { dest, from, val } => InstV::Uitofp { dest: *dest, from: *from, val: val@ },
            Inst::Sext { dest, from, to, val } => InstV::Sext { dest: *dest, from: *from, to: *to, val: val@ },
            Inst::Zext { dest, from, to, val } => InstV::Zext { dest: *dest, from: *from, to: *to, val: val@ },
            Inst::BitcastI32ToFloat { dest, val } => InstV::BitcastI32ToFloat { dest: *dest, val: val@ },
            Inst::Fpext { dest, val } => InstV::Fpext { dest: *dest, val: val@ },
            Inst::GepOffset { dest, elem, base, offset } => InstV::GepOffset {
                dest: *dest,
                elem: *elem,
                base: base@,
                offset: *offset,
            },
            Inst::GepInbounds { dest, elem, base, index } => InstV::GepInbounds {
                dest: *dest,
                elem: *elem,
                base: base@,
                index: index@,
            },
            Inst::LoadInvariant { dest, ty, ptr } => InstV::LoadInvariant { dest: *dest, ty: *ty, ptr: ptr@ },
            Inst::LoadScoped { dest, ty, ptr, scope } => InstV::LoadScoped {
                dest: *dest,
                ty: *ty,
                ptr: ptr@,
                scope: *scope,
            },
            Inst::UnboxToI64 { dest, val } => InstV::UnboxToI64 { dest: *dest, val: val@ },
            Inst::UnboxStrHandle { dest, val } => InstV::UnboxStrHandle { dest: *dest, val: val@ },
            Inst::NanboxBool { dest, val } => InstV::NanboxBool { dest: *dest, val: val@ },
            Inst::NanboxPointer { dest, val } => InstV::NanboxPointer { dest: *dest, val: val@ },
            Inst::NanboxString { dest, val } => InstV::NanboxString { dest: *dest, val: val@ },
            Inst::NanboxBigInt { dest, val } => InstV::NanboxBigInt { dest: *dest, val: val@ },
        }
    }
}

/// The views of a list of instructions.
pub open spec fn insts_view(insts: Seq<Inst>) -> Seq<InstV> {
    insts.map_values(|i: Inst| i@)
}

/// Whether an instruction ends a basic block.
pub open spec fn is_terminator(i: InstV) -> bool {
    i is Br || i is CondBr
}

/// A basic block: a name hint and its instructions in order.
#[derive(Clone, Debug)]
pub struct Block {
    pub name: String,
    pub insts: Vec<Inst>,
}

pub struct BlockV {
    pub name: Seq<char>,
    pub insts: Seq<InstV>,
}

impl View for Block {
    type V = BlockV;

    open spec fn view(&self) -> BlockV {
        BlockV { name: self.name@, insts: self.insts@.map_values(|i: Inst| i@) }
    }
}

/// An external function the module must declare: name, return type and
/// parameter types.
#[derive(Clone, Debug)]
pub struct Declare {
    pub name: String,
    pub ret: Ty,
    pub params: Vec<Ty>,
}

pub struct DeclareV {
    pub name: Seq<char>,
    pub ret: Ty,
    pub params: Seq<Ty>,
}

impl View for Declare {
    type V = DeclareV;

    open spec fn view(&self) -> DeclareV {
        DeclareV { name: self.name@, ret: self.ret, params: self.params@ }
    }
}

/// The state of the function being emitted.
pub struct FnBuilder {
    pub blocks: Vec<Block>,
    /// The block instructions are appended to.
    pub current: usize,
    /// The number of the next fresh register.
    pub next_reg: u64,
    /// Allocas hoisted into the entry block.
    pub allocas: Vec<Inst>,
    /// The module's string pool; an entry's index names its globals.
    pub strings: Vec<String>,
    /// External functions called so far that the module must declare.
    pub declares: Vec<Declare>,
}

pub struct FnBuilderV {
    pub blocks: Seq<BlockV>,
    pub current: int,
    pub next_reg: int,
    pub allocas: Seq<InstV>,
    pub strings: Seq<Seq<char>>,
    pub declares: Seq<DeclareV>,
}

impl View for FnBuilder {
    type V = FnBuilderV;

    closed spec fn view(&self) -> FnBuilderV {
        FnBuilderV {
            blocks: self.blocks@.map_values(|b: Block| b@),
            current: self.current as int,
            next_reg: self.next_reg as int,
            allocas: self.allocas@.map_values(|i: Inst| i@),
            strings: self.strings@.map_values(|s: String| s@),
            declares: self.declares@.map_values(|d: Declare| d@),
        }
    }
}

impl FnBuilderV {
    /// The current block exists.
    pub open spec fn wf(self) -> bool {
        0 <= self.current < self.blocks.len()
    }

    /// The instructions of the current block.
    pub open spec fn cur_insts(self) -> Seq<InstV> {
        self.blocks[self.current].insts
    }

    /// Whether the current block already ends in a terminator.
    pub open spec fn cur_terminated(self) -> bool {
        self.cur_insts().len() > 0 && is_terminator(self.cur_insts().last())
    }

    /// This state, with `insts` appended to the current block.
    pub open spec fn append_cur(self, insts: Seq<InstV>) -> FnBuilderV {
        FnBuilderV {
            blocks: self.blocks.update(
                self.current,
                BlockV { name: self.blocks[self.current].name, insts: self.blocks[self.current].insts + insts },
            ),
            ..self
        }
    }
}

/// Appending nothing to the current block changes nothing.
pub proof fn lemma_append_cur_empty(v: FnBuilderV)
    requires
        v.wf(),
    ensures
        v.append_cur(Seq::empty()) == v,
{
    assert(v.blocks[v.current].insts + Seq::<InstV>::empty() =~= v.blocks[v.current].insts);
    assert(v.append_cur(Seq::empty()).blocks =~= v.blocks);
}

/// Appending twice to the current block appends the concatenation.
pub proof fn lemma_append_cur_twice(v: FnBuilderV, a: Seq<InstV>, b: Seq<InstV>)
    requires
        v.wf(),
    ensures
        v.append_cur(a).append_cur(b) == v.append_cur(a + b),
        v.append_cur(a).wf(),
{
    assert(v.blocks[v.current].insts + a + b =~= v.blocks[v.current].insts + (a + b));
    assert(v.append_cur(a).append_cur(b).blocks =~= v.append_cur(a + b).blocks);
}

impl FnBuilder {
    /// A function with one empty entry block named `entry`.
    pub fn new() -> (b: FnBuilder)
        ensures
            b@.wf(),
            b@.blocks.len() == 1,
            b@.blocks[0].name == "entry"@,
            b@.blocks[0].insts.len() == 0,
            b@.current == 0,
            b@.next_reg == 0,
            b@.allocas.len() == 0,
            b@.strings.len() == 0,
            b@.declares.len() == 0,
    {
        let entry = Block { name: String::from_str("entry"), insts: Vec::new() };
        let mut blocks = Vec::new();
        blocks.push(entry);
        let b = FnBuilder {
            blocks,
            current: 0,
            next_reg: 0,
            allocas: Vec::new(),
            strings: Vec::new(),
            declares: Vec::new(),
        };
        assert(b@.blocks[0] == b.blocks@[0]@);
        b
    }

    /// The number the next fresh register will get.
    pub fn peek_reg(&self) -> (r: u64)
        ensures
            r == self@.next_reg,
    {
        self.next_reg
    }

    /// The number of blocks.
    pub fn num_blocks(&self) -> (n: usize)
        ensures
            n == self@.blocks.len(),
    {
        self.blocks.len()
    }

    /// The index of the current block.
    pub fn current_block(&self) -> (c: usize)
        ensures
            c == self@.current,
    {
        self.current
    }

    /// Hands out the next register number.
    pub fn fresh_reg(&mut self) -> (r: u64)
        requires
            old(self)@.next_reg < u64::MAX,
        ensures
            r == old(self)@.next_reg,
            final(self)@ == (FnBuilderV { next_reg: old(self)@.next_reg + 1, ..old(self)@ }),
    {
        let r = self.next_reg;
        self.next_reg = self.next_reg + 1;
        assert(self@.blocks =~= old(self)@.blocks);
        assert(self@.allocas =~= old(self)@.allocas);
        assert(self@.strings =~= old(self)@.strings);
        assert(self@.declares =~= old(self)@.declares);
        r
    }

    /// Appends one instruction to the current block.
    pub fn push(&mut self, inst: Inst)
        requires
            old(self)@.wf(),
        ensures
            final(self)@ == old(self)@.append_cur(seq![inst@]),
            final(self)@.wf(),
    {
        let ghost pre = self@;
        let cur = self.current;
        let mut blk = Block { name: String::new(), insts: Vec::new() };
        std::mem::swap(&mut blk, &mut self.blocks[cur]);
        blk.insts.push(inst);
        std::mem::swap(&mut blk, &mut self.blocks[cur]);
        proof {
            assert(self.blocks@[cur as int]@.insts =~= pre.blocks[cur as int].insts + seq![inst@]);
            assert(self@.blocks =~= pre.append_cur(seq![inst@]).blocks);
        }
    }

    /// Reserves `k` consecutive fresh registers and returns the first.
    pub fn reserve_regs(&mut self, k: u64) -> (first: u64)
        requires
            old(self)@.next_reg + k <= u64::MAX,
        ensures
            first == old(self)@.next_reg,
            final(self)@ == (FnBuilderV { next_reg: old(self)@.next_reg + k, ..old(self)@ }),
    {
        let first = self.next_reg;
        self.next_reg = self.next_reg + k;
        assert(self@.blocks =~= old(self)@.blocks);
        assert(self@.allocas =~= old(self)@.allocas);
        assert(self@.strings =~= old(self)@.strings);
        assert(self@.declares =~= old(self)@.declares);
        first
    }

    /// Appends the instructions `insts`, in order, to the current block.
    pub fn push_all(&mut self, insts: Vec<Inst>)
        requires
            old(self)@.wf(),
        ensures
            final(self)@ == old(self)@.append_cur(insts_view(insts@)),
            final(self)@.wf(),
    {
        let ghost pre = self@;
        let ghost all = insts_view(insts@);
        proof {
            lemma_append_cur_empty(pre);
        }
        let mut rest = insts;
        let n = rest.len();
        let mut i: usize = 0;
        while i < n
            invariant
                pre.wf(),
                n == all.len(),
                i <= n,
                insts_view(rest@) == all.skip(i as int),
                rest@.len() == n - i,
                self@ == pre.append_cur(all.take(i as int)),
                self@.wf(),
            decreases n - i,
        {
            let ghost before = rest@;
            assert(insts_view(before)[0] == before[0]@);
            assert(all.skip(i as int)[0] == all[i as int]);
            let inst = rest.remove(0);
            proof {
                assert(inst@ == all[i as int]);
                assert forall|k: int| 0 <= k < rest@.len() implies insts_view(rest@)[k] == all.skip(i + 1)[k] by {
                    assert(rest@[k] == before[k + 1]);
                    assert(insts_view(before)[k + 1] == all.skip(i as int)[k + 1]);
                }
                assert(insts_view(rest@) =~= all.skip(i + 1));
            }
            self.push(inst);
            proof {
                lemma_append_cur_twice(pre, all.take(i as int), seq![all[i as int]]);
                assert(all.take(i as int) + seq![all[i as int]] =~= all.take(i + 1));
            }
            i = i + 1;
        }
        assert(all.take(n as int) =~= all);
    }

    /// Whether the current block already ends in a terminator.
    pub fn is_terminated(&self) -> (res: bool)
        requires
            self@.wf(),
        ensures
            res == self@.cur_terminated(),
    {
        let insts = &self.blocks[self.current].insts;
        let n = insts.len();
        assert(self@.cur_insts() == insts@.map_values(|i: Inst| i@));
        if n == 0 {
            false
        } else {
            match &insts[n - 1] {
                Inst::Br { .. } => true,
                Inst::CondBr { .. } => true,
                _ => false,
            }
        }
    }

    /// Opens a new, empty block named `name` and returns its index; the
    /// current block does not change.
    pub fn new_block(&mut self, name: &str) -> (idx: usize)
        requires
            old(self)@.wf(),
        ensures
            idx == old(self)@.blocks.len(),
            final(self)@ == (FnBuilderV {
                blocks: old(self)@.blocks.push(BlockV { name: name@, insts: Seq::empty() }),
                ..old(self)@
            }),
            final(self)@.wf(),
    {
        let idx = self.blocks.len();
        let blk = Block { name: String::from_str(name), insts: Vec::new() };
        assert(blk@.insts =~= Seq::<InstV>::empty());
        self.blocks.push(blk);
        proof {
            assert(self@.blocks =~= old(self)@.blocks.push(BlockV { name: name@, insts: Seq::empty() }));
        }
        idx
    }

    /// Appends a block named `name` holding `insts` and returns its index;
    /// the current block does not change.
    pub fn push_block(&mut self, name: String, insts: Vec<Inst>) -> (idx: usize)
        requires
            old(self)@.wf(),
        ensures
            idx == old(self)@.blocks.len(),
            final(self)@ == (FnBuilderV {
                blocks: old(self)@.blocks.push(BlockV { name: name@, insts: insts_view(insts@) }),
                ..old(self)@
            }),
            final(self)@.wf(),
    {
        let idx = self.blocks.len();
        let blk = Block { name, insts };
        self.blocks.push(blk);
        proof {
            assert(self@.blocks =~= old(self)@.blocks.push(BlockV { name: name@, insts: insts_view(insts@) }));
        }
        idx
    }

    /// Makes block `idx` the current block.
    pub fn switch_to(&mut self, idx: usize)
        requires
            idx < old(self)@.blocks.len(),
        ensures
            final(self)@ == (FnBuilderV { current: idx as int, ..old(self)@ }),
            final(self)@.wf(),
    {
        self.current = idx;
        assert(self@.blocks =~= old(self)@.blocks);
        assert(self@.allocas =~= old(self)@.allocas);
        assert(self@.strings =~= old(self)@.strings);
        assert(self@.declares =~= old(self)@.declares);
    }

    /// Emits `dest = call ret @callee(args)` and returns the register.
    pub fn call(&mut self, ret: Ty, callee: &str, args: Vec<Arg>) -> (r: u64)
        requires
            old(self)@.wf(),
            old(self)@.next_reg < u64::MAX,
        ensures
            r == old(self)@.next_reg,
            final(self)@ == (FnBuilderV { next_reg: r + 1, ..old(self)@ }).append_cur(
                seq![InstV::Call { dest: Some(r), ret, callee: callee@, args: args_view(args@) }],
            ),
            final(self)@.wf(),
    {
        let r = self.fresh_reg();
        self.push(Inst::Call { dest: Some(r), ret, callee: String::from_str(callee), args });
        r
    }

    /// Emits `call void @callee(args)`.
    pub fn call_void(&mut self, callee: &str, args: Vec<Arg>)
        requires
            old(self)@.wf(),
        ensures
            final(self)@ == old(self)@.append_cur(
                seq![InstV::Call { dest: None, ret: Ty::Void, callee: callee@, args: args_view(args@) }],
            ),
            final(self)@.wf(),
    {
        self.push(Inst::Call { dest: None, ret: Ty::Void, callee: String::from_str(callee), args });
    }

    /// Hoists `dest = alloca [count x elem]` into the entry block and returns
    /// the register.
    pub fn alloca_entry_array(&mut self, elem: Ty, count: u64) -> (r: u64)
        requires
            old(self)@.next_reg < u64::MAX,
        ensures
            r == old(self)@.next_reg,
            final(self)@ == (FnBuilderV {
                next_reg: r + 1,
                allocas: old(self)@.allocas.push(InstV::Alloca { dest: r, elem, count }),
                ..old(self)@
            }),
    {
        let r = self.fresh_reg();
        self.allocas.push(Inst::Alloca { dest: r, elem, count });
        proof {
            assert(self@.allocas =~= old(self)@.allocas.push(InstV::Alloca { dest: r, elem, count }));
        }
        r
    }

    /// Hoists `dest = alloca ty` (one slot) into the entry block and returns
    /// the register.
    pub fn alloca_entry(&mut self, ty: Ty) -> (r: u64)
        requires
            old(self)@.next_reg < u64::MAX,
        ensures
            r == old(self)@.next_reg,
            final(self)@ == (FnBuilderV {
                next_reg: r + 1,
                allocas: old(self)@.allocas.push(InstV::AllocaSlot { dest: r, ty }),
                ..old(self)@
            }),
    {
        let r = self.fresh_reg();
        self.allocas.push(Inst::AllocaSlot { dest: r, ty });
        proof {
            assert(self@.allocas =~= old(self)@.allocas.push(InstV::AllocaSlot { dest: r, ty }));
        }
        r
    }

    /// Appends `inst` to the instructions hoisted into the entry block.
    pub fn push_entry(&mut self, inst: Inst)
        ensures
            final(self)@ == (FnBuilderV { allocas: old(self)@.allocas.push(inst@), ..old(self)@ }),
    {
        let ghost v = inst@;
        self.allocas.push(inst);
        proof {
            assert(self@.allocas =~= old(self)@.allocas.push(v));
        }
    }

    /// Records an external function to declare.
    pub fn declare(&mut self, name: &str, ret: Ty, params: Vec<Ty>)
        ensures
            final(self)@ == (FnBuilderV {
                declares: old(self)@.declares.push(DeclareV { name: name@, ret, params: params@ }),
                ..old(self)@
            }),
    {
        self.declares.push(Declare { name: String::from_str(name), ret, params });
        proof {
            assert(self@.declares =~= old(self)@.declares.push(
                DeclareV { name: name@, ret, params: params@ },
            ));
        }
    }

    /// Interns `s` in the string pool: the index of an equal entry when there
    /// is one, else the index of a new entry appended for it.
    pub fn intern(&mut self, s: &str) -> (idx: usize)
        ensures
            idx < final(self)@.strings.len(),
            final(self)@.strings[idx as int] == s@,
            old(self)@.strings.contains(s@) ==> final(self)@ == old(self)@ && idx == first_index_of(
                old(self)@.strings,
                s@,
            ),
            !old(self)@.strings.contains(s@) ==> idx == old(self)@.strings.len() && final(self)@ == (
            FnBuilderV { strings: old(self)@.strings.push(s@), ..old(self)@ }),
    {
        let n = self.strings.len();
        let mut i: usize = 0;
        while i < n
            invariant
                n == self.strings@.len(),
                i <= n,
                self@ == old(self)@,
                forall|k: int| 0 <= k < i ==> (#[trigger] self.strings@[k])@ != s@,
            decreases n - i,
        {
            if str_eq(self.strings[i].as_str(), s) {
                proof {
                    assert(self@.strings[i as int] == s@);
                    lemma_first_index_of(self@.strings, s@, i as int);
                }
                return i;
            }
            i = i + 1;
        }
        proof {
            assert forall|k: int| 0 <= k < self@.strings.len() implies self@.strings[k] != s@ by {
                assert(self@.strings[k] == self.strings@[k]@);
            }
            assert(!self@.strings.contains(s@));
        }
        self.strings.push(String::from_str(s));
        proof {
            assert(self@.strings =~= old(self)@.strings.push(s@));
        }
        n
    }
}

/// The index of the first occurrence of `x` in `s`.
pub open spec fn first_index_of(s: Seq<Seq<char>>, x: Seq<char>) -> int {
    choose|i: int| 0 <= i < s.len() && s[i] == x && forall|k: int| 0 <= k < i ==> s[k] != x
}

proof fn lemma_first_index_of(s: Seq<Seq<char>>, x: Seq<char>, i: int)
    requires
        0 <= i < s.len(),
        s[i] == x,
        forall|k: int| 0 <= k < i ==> s[k] != x,
    ensures
        first_index_of(s, x) == i,
        s.contains(x),
{
    let j = first_index_of(s, x);
    assert(0 <= j < s.len() && s[j] == x && forall|k: int| 0 <= k < j ==> s[k] != x);
    if j < i {
        assert(s[j] != x);
    } else if j > i {
        assert(s[i] != x);
    }
}

} // verus!
