//! The part of the HIR that call lowering reads: statements and the
//! expression forms whose shape decides a lowering, with everything else
//! folded into `Expr::Other`.

use vstd::prelude::*;

verus! {

/// A local variable's id.
pub type LocalId = u32;

/// An HIR expression.
#[derive(Debug)]
pub enum Expr {
    /// A read of a local.
    LocalGet(LocalId),
    /// `id = value`.
    LocalSet(LocalId, Box<Expr>),
    /// `id++`, `--id` and the like.
    Update { id: LocalId },
    /// A read of a global (`globalThis` and friends).
    GlobalGet(u32),
    /// `object.property`.
    PropertyGet { object: Box<Expr>, property: String },
    /// `object[index]`.
    IndexGet { object: Box<Expr>, index: Box<Expr> },
    /// A binary operation.
    Binary { left: Box<Expr>, right: Box<Expr> },
    /// A call.
    Call { callee: Box<Expr>, args: Vec<Expr> },
    /// A call of a native module method, with or without a receiver.
    NativeMethodCall { module: String, method: String, object: Option<Box<Expr>>, args: Vec<Expr> },
    /// An array literal.
    Array(Vec<Expr>),
    /// An object literal: its properties' keys and values, in order.
    Object(Vec<(String, Expr)>),
    /// `condition ? then_expr : else_expr`.
    Conditional { condition: Box<Expr>, then_expr: Box<Expr>, else_expr: Box<Expr> },
    /// A closure literal; its body is a scope of its own.
    Closure { func_id: u32 },
    /// `new class_name(args)`.
    New { class_name: String, args: Vec<Expr> },
    /// A string literal.
    Str(String),
    /// A string literal with lone surrogates, as WTF-8 bytes.
    WtfString(Vec<u8>),
    /// `Symbol.for(description)`.
    SymbolFor(Box<Expr>),
    /// A reference to a class of this module, by name.
    ClassRef(String),
    /// A reference to a function of this module.
    FuncRef(u32),
    /// A reference to an imported function (or class) by name.
    ExternFuncRef { name: String },
    /// A reference to a native module itself (`fs`, `crypto`, ...).
    NativeModuleRef(String),
    /// A sequence of expressions, valued as its last one.
    Sequence(Vec<Expr>),
    /// The closure of the async step currently running, read from
    /// thread-local state.
    CurrentStepClosure,
    /// Any other expression: literals, `this`, and forms no lowering here
    /// looks into.
    Other,
}

/// A `catch` clause: its parameter's local, if it binds one, and its body.
#[derive(Debug)]
pub struct CatchClause {
    pub param: Option<LocalId>,
    pub body: Vec<Stmt>,
}

/// A `case` (or `default`, without a test) of a `switch`.
#[derive(Debug)]
pub struct SwitchCase {
    pub test: Option<Expr>,
    pub body: Vec<Stmt>,
}

/// An HIR statement.
#[derive(Debug)]
pub enum Stmt {
    Let { id: LocalId, init: Option<Expr> },
    Expr(Expr),
    Return(Option<Expr>),
    Throw(Expr),
    Break,
    Continue,
    LabeledBreak(String),
    LabeledContinue(String),
    If { condition: Expr, then_branch: Vec<Stmt>, else_branch: Option<Vec<Stmt>> },
    While { condition: Expr, body: Vec<Stmt> },
    DoWhile { body: Vec<Stmt>, condition: Expr },
    For { init: Option<Box<Stmt>>, condition: Option<Expr>, update: Option<Expr>, body: Vec<Stmt> },
    Try { body: Vec<Stmt>, catch: Option<CatchClause>, finally: Option<Vec<Stmt>> },
    Switch { discriminant: Expr, cases: Vec<SwitchCase> },
    Labeled { label: String, body: Box<Stmt> },
    PreallocateBoxes(Vec<LocalId>),
}

} // verus!
