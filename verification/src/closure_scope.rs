//! Scope analysis of a closure body handed to a threading primitive: the
//! locals the body declares itself, and the writes it makes to any other
//! local (a captured or module-level variable).

use vstd::prelude::*;

use std::collections::HashSet;

use crate::hir::{Expr, LocalId, Stmt, SwitchCase};

verus! {

broadcast use vstd::std_specs::hash::group_hash_axioms;

/// The locals written by `e` that are not in `inner`, in evaluation order.
/// Nested closures are a scope of their own and are not looked into.
pub open spec fn expr_writes(e: Expr, inner: Set<LocalId>) -> Seq<LocalId>
    decreases e,
{
    match e {
        Expr::LocalSet(id, val) => (if inner.contains(id) {
            Seq::empty()
        } else {
            seq![id]
        }) + expr_writes(*val, inner),
        Expr::Update { id } => if inner.contains(id) {
            Seq::empty()
        } else {
            seq![id]
        },
        Expr::Binary { left, right } => expr_writes(*left, inner) + expr_writes(*right, inner),
        Expr::Call { callee, args } => expr_writes(*callee, inner) + exprs_writes(args@, inner),
        Expr::NativeMethodCall { object, args, .. } => (match object {
            Some(o) => expr_writes(*o, inner),
            None => Seq::empty(),
        }) + exprs_writes(args@, inner),
        Expr::PropertyGet { object, .. } => expr_writes(*object, inner),
        Expr::IndexGet { object, index } => expr_writes(*object, inner) + expr_writes(*index, inner),
        Expr::Array(elems) => exprs_writes(elems@, inner),
        Expr::Sequence(es) => exprs_writes(es@, inner),
        Expr::New { args, .. } => exprs_writes(args@, inner),
        Expr::SymbolFor(d) => expr_writes(*d, inner),
        Expr::Object(props) => props_writes(props@, inner),
        Expr::Conditional { condition, then_expr, else_expr } => expr_writes(*condition, inner) + expr_writes(
            *then_expr,
            inner,
        ) + expr_writes(*else_expr, inner),
        _ => Seq::empty(),
    }
}

/// The outer writes of a list of expressions, in order.
pub open spec fn exprs_writes(es: Seq<Expr>, inner: Set<LocalId>) -> Seq<LocalId>
    decreases es,
{
    if es.len() == 0 {
        Seq::empty()
    } else {
        exprs_writes(es.drop_last(), inner) + expr_writes(es.last(), inner)
    }
}

/// The outer writes of an object literal's property values, in order.
pub open spec fn props_writes(ps: Seq<(String, Expr)>, inner: Set<LocalId>) -> Seq<LocalId>
    decreases ps,
{
    if ps.len() == 0 {
        Seq::empty()
    } else {
        props_writes(ps.drop_last(), inner) + expr_writes(ps.last().1, inner)
    }
}

/// The outer writes of an optional expression.
pub open spec fn opt_expr_writes(e: Option<Expr>, inner: Set<LocalId>) -> Seq<LocalId>
    decreases e,
{
    match e {
        Some(x) => expr_writes(x, inner),
        None => Seq::empty(),
    }
}

/// The locals written by statement `s` that are not in `inner`, in
/// evaluation order.
pub open spec fn stmt_writes(s: Stmt, inner: Set<LocalId>) -> Seq<LocalId>
    decreases s,
{
    match s {
        Stmt::Let { init, .. } => opt_expr_writes(init, inner),
        Stmt::Expr(e) => expr_writes(e, inner),
        Stmt::Return(e) => opt_expr_writes(e, inner),
        Stmt::Throw(e) => expr_writes(e, inner),
        Stmt::If { condition, then_branch, else_branch } => expr_writes(condition, inner) + stmts_writes(
            then_branch@,
            inner,
        ) + match else_branch {
            Some(eb) => stmts_writes(eb@, inner),
            None => Seq::empty(),
        },
        Stmt::While { condition, body } => expr_writes(condition, inner) + stmts_writes(body@, inner),
        Stmt::DoWhile { body, condition } => stmts_writes(body@, inner) + expr_writes(condition, inner),
        Stmt::For { init, condition, update, body } => (match init {
            Some(i) => stmt_writes(*i, inner),
            None => Seq::empty(),
        }) + opt_expr_writes(condition, inner) + opt_expr_writes(update, inner) + stmts_writes(body@, inner),
        Stmt::Try { body, catch, finally } => stmts_writes(body@, inner) + (match catch {
            Some(cc) => stmts_writes(cc.body@, inner),
            None => Seq::empty(),
        }) + match finally {
            Some(fb) => stmts_writes(fb@, inner),
            None => Seq::empty(),
        },
        Stmt::Switch { discriminant, cases } => expr_writes(discriminant, inner) + cases_writes(cases@, inner),
        Stmt::Labeled { body, .. } => stmt_writes(*body, inner),
        _ => Seq::empty(),
    }
}

/// The outer writes of a list of statements, in order.
pub open spec fn stmts_writes(ss: Seq<Stmt>, inner: Set<LocalId>) -> Seq<LocalId>
    decreases ss,
{
    if ss.len() == 0 {
        Seq::empty()
    } else {
        stmts_writes(ss.drop_last(), inner) + stmt_writes(ss.last(), inner)
    }
}

/// The outer writes of the cases of a `switch`: each case's test, then its
/// body.
pub open spec fn cases_writes(cs: Seq<SwitchCase>, inner: Set<LocalId>) -> Seq<LocalId>
    decreases cs,
{
    if cs.len() == 0 {
        Seq::empty()
    } else {
        cases_writes(cs.drop_last(), inner) + opt_expr_writes(cs.last().test, inner) + stmts_writes(
            cs.last().body@,
            inner,
        )
    }
}

/// Appends to `out` the locals written by `expr` that are not in
/// `inner_ids`, without looking into nested closures.
pub fn find_outer_writes_expr(expr: &Expr, inner_ids: &HashSet<LocalId>, out: &mut Vec<LocalId>)
    ensures
        final(out)@ == old(out)@ + expr_writes(*expr, inner_ids@),
    decreases expr,
{
    let ghost pre = out@;
    let ghost inner = inner_ids@;
    match expr {
        Expr::LocalSet(id, val) => {
            if !inner_ids.contains(id) {
                out.push(*id);
            }
            find_outer_writes_expr(val, inner_ids, out);
            assert(out@ =~= pre + expr_writes(*expr, inner));
        },
        Expr::Update { id } => {
            if !inner_ids.contains(id) {
                out.push(*id);
            }
            assert(out@ =~= pre + expr_writes(*expr, inner));
        },
        Expr::Closure { .. } => {
            // A nested closure is its own scope.
            assert(out@ =~= pre + expr_writes(*expr, inner));
        },
        Expr::Binary { left, right } => {
            find_outer_writes_expr(left, inner_ids, out);
            find_outer_writes_expr(right, inner_ids, out);
            assert(out@ =~= pre + expr_writes(*expr, inner));
        },
        Expr::Call { callee, args } => {
            find_outer_writes_expr(callee, inner_ids, out);
            find_outer_writes_exprs(args, inner_ids, out);
            assert(out@ =~= pre + expr_writes(*expr, inner));
        },
        Expr::NativeMethodCall { object, args, .. } => {
            if let Some(o) = object {
                find_outer_writes_expr(o, inner_ids, out);
            }
            find_outer_writes_exprs(args, inner_ids, out);
            assert(out@ =~= pre + expr_writes(*expr, inner));
        },
        Expr::PropertyGet { object, .. } => {
            find_outer_writes_expr(object, inner_ids, out);
        },
        Expr::IndexGet { object, index } => {
            find_outer_writes_expr(object, inner_ids, out);
            find_outer_writes_expr(index, inner_ids, out);
            assert(out@ =~= pre + expr_writes(*expr, inner));
        },
        Expr::Array(elems) => {
            find_outer_writes_exprs(elems, inner_ids, out);
        },
        Expr::Sequence(es) => {
            find_outer_writes_exprs(es, inner_ids, out);
        },
        Expr::New { args, .. } => {
            find_outer_writes_exprs(args, inner_ids, out);
        },
        Expr::SymbolFor(d) => {
            find_outer_writes_expr(d, inner_ids, out);
        },
        Expr::Object(props) => {
            find_outer_writes_props(props, inner_ids, out);
        },
        Expr::Conditional { condition, then_expr, else_expr } => {
            find_outer_writes_expr(condition, inner_ids, out);
            find_outer_writes_expr(then_expr, inner_ids, out);
            find_outer_writes_expr(else_expr, inner_ids, out);
            assert(out@ =~= pre + expr_writes(*expr, inner));
        },
        _ => {
            // Literals, reads and the like write nothing.
            assert(out@ =~= pre + expr_writes(*expr, inner));
        },
    }
}

/// Appends the outer writes of each expression of `es`, in order.
fn find_outer_writes_exprs(es: &Vec<Expr>, inner_ids: &HashSet<LocalId>, out: &mut Vec<LocalId>)
    ensures
        final(out)@ == old(out)@ + exprs_writes(es@, inner_ids@),
    decreases es,
{
    let ghost pre = out@;
    let mut i: usize = 0;
    while i < es.len()
        invariant
            i <= es@.len(),
            pre == old(out)@,
            out@ == pre + exprs_writes(es@.take(i as int), inner_ids@),
        decreases es@.len() - i,
    {
        find_outer_writes_expr(&es[i], inner_ids, out);
        proof {
            let t = es@.take(i + 1);
            assert(t.drop_last() =~= es@.take(i as int));
            assert(t.last() == es@[i as int]);
            assert(out@ =~= pre + exprs_writes(t, inner_ids@));
        }
        i = i + 1;
    }
    assert(es@.take(es@.len() as int) =~= es@);
}

/// Appends the outer writes of each property value of `ps`, in order.
fn find_outer_writes_props(ps: &Vec<(String, Expr)>, inner_ids: &HashSet<LocalId>, out: &mut Vec<LocalId>)
    ensures
        final(out)@ == old(out)@ + props_writes(ps@, inner_ids@),
    decreases ps,
{
    let ghost pre = out@;
    let mut i: usize = 0;
    while i < ps.len()
        invariant
            i <= ps@.len(),
            pre == old(out)@,
            out@ == pre + props_writes(ps@.take(i as int), inner_ids@),
        decreases ps@.len() - i,
    {
        assert(decreases_to!(ps => ps@[i as int].1));
        find_outer_writes_expr(&ps[i].1, inner_ids, out);
        proof {
            let t = ps@.take(i + 1);
            assert(t.drop_last() =~= ps@.take(i as int));
            assert(t.last() == ps@[i as int]);
            assert(out@ =~= pre + props_writes(t, inner_ids@));
        }
        i = i + 1;
    }
    assert(ps@.take(ps@.len() as int) =~= ps@);
}

/// Appends the outer writes of an optional expression.
fn find_outer_writes_opt(e: &Option<Expr>, inner_ids: &HashSet<LocalId>, out: &mut Vec<LocalId>)
    ensures
        final(out)@ == old(out)@ + opt_expr_writes(*e, inner_ids@),
{
    match e {
        Some(x) => find_outer_writes_expr(x, inner_ids, out),
        None => {
            assert(out@ =~= old(out)@ + opt_expr_writes(*e, inner_ids@));
        },
    }
}

/// Appends to `out` the locals written by `stmt` that are not in
/// `inner_ids` (a write to a captured or module-level variable when
/// `inner_ids` holds the closure's own locals), in evaluation order,
/// without looking into nested closures.
pub fn find_outer_writes_stmt(stmt: &Stmt, inner_ids: &HashSet<LocalId>, out: &mut Vec<LocalId>)
    ensures
        final(out)@ == old(out)@ + stmt_writes(*stmt, inner_ids@),
    decreases stmt,
{
    let ghost pre = out@;
    let ghost inner = inner_ids@;
    match stmt {
        Stmt::Let { init, .. } => {
            find_outer_writes_opt(init, inner_ids, out);
        },
        Stmt::Expr(e) => {
            find_outer_writes_expr(e, inner_ids, out);
        },
        Stmt::Return(e) => {
            find_outer_writes_opt(e, inner_ids, out);
        },
        Stmt::Throw(e) => {
            find_outer_writes_expr(e, inner_ids, out);
        },
        Stmt::If { condition, then_branch, else_branch } => {
            find_outer_writes_expr(condition, inner_ids, out);
            find_outer_writes_stmts(then_branch, inner_ids, out);
            if let Some(eb) = else_branch {
                find_outer_writes_stmts(eb, inner_ids, out);
            }
            assert(out@ =~= pre + stmt_writes(*stmt, inner));
        },
        Stmt::While { condition, body } => {
            find_outer_writes_expr(condition, inner_ids, out);
            find_outer_writes_stmts(body, inner_ids, out);
            assert(out@ =~= pre + stmt_writes(*stmt, inner));
        },
        Stmt::DoWhile { body, condition } => {
            find_outer_writes_stmts(body, inner_ids, out);
            find_outer_writes_expr(condition, inner_ids, out);
            assert(out@ =~= pre + stmt_writes(*stmt, inner));
        },
        Stmt::For { init, condition, update, body } => {
            if let Some(init_stmt) = init {
                find_outer_writes_stmt(init_stmt, inner_ids, out);
            }
            find_outer_writes_opt(condition, inner_ids, out);
            find_outer_writes_opt(update, inner_ids, out);
            find_outer_writes_stmts(body, inner_ids, out);
            assert(out@ =~= pre + stmt_writes(*stmt, inner));
        },
        Stmt::Try { body, catch, finally } => {
            find_outer_writes_stmts(body, inner_ids, out);
            if let Some(cc) = catch {
                find_outer_writes_stmts(&cc.body, inner_ids, out);
            }
            if let Some(fb) = finally {
                find_outer_writes_stmts(fb, inner_ids, out);
            }
            assert(out@ =~= pre + stmt_writes(*stmt, inner));
        },
        Stmt::Switch { discriminant, cases } => {
            find_outer_writes_expr(discriminant, inner_ids, out);
            find_outer_writes_cases(cases, inner_ids, out);
            assert(out@ =~= pre + stmt_writes(*stmt, inner));
        },
        Stmt::Labeled { body, .. } => {
            find_outer_writes_stmt(body, inner_ids, out);
        },
        _ => {
            // Break, continue and box preallocation write nothing.
            assert(out@ =~= pre + stmt_writes(*stmt, inner));
        },
    }
}

/// Appends the outer writes of each statement of `ss`, in order.
fn find_outer_writes_stmts(ss: &Vec<Stmt>, inner_ids: &HashSet<LocalId>, out: &mut Vec<LocalId>)
    ensures
        final(out)@ == old(out)@ + stmts_writes(ss@, inner_ids@),
    decreases ss,
{
    let ghost pre = out@;
    let mut i: usize = 0;
    while i < ss.len()
        invariant
            i <= ss@.len(),
            pre == old(out)@,
            out@ == pre + stmts_writes(ss@.take(i as int), inner_ids@),
        decreases ss@.len() - i,
    {
        find_outer_writes_stmt(&ss[i], inner_ids, out);
        proof {
            let t = ss@.take(i + 1);
            assert(t.drop_last() =~= ss@.take(i as int));
            assert(t.last() == ss@[i as int]);
            assert(out@ =~= pre + stmts_writes(t, inner_ids@));
        }
        i = i + 1;
    }
    assert(ss@.take(ss@.len() as int) =~= ss@);
}

/// Appends the outer writes of each case of a `switch`, in order.
fn find_outer_writes_cases(cs: &Vec<SwitchCase>, inner_ids: &HashSet<LocalId>, out: &mut Vec<LocalId>)
    ensures
        final(out)@ == old(out)@ + cases_writes(cs@, inner_ids@),
    decreases cs,
{
    let ghost pre = out@;
    let mut i: usize = 0;
    while i < cs.len()
        invariant
            i <= cs@.len(),
            pre == old(out)@,
            out@ == pre + cases_writes(cs@.take(i as int), inner_ids@),
        decreases cs@.len() - i,
    {
        find_outer_writes_opt(&cs[i].test, inner_ids, out);
        find_outer_writes_stmts(&cs[i].body, inner_ids, out);
        proof {
            let t = cs@.take(i + 1);
            assert(t.drop_last() =~= cs@.take(i as int));
            assert(t.last() == cs@[i as int]);
            assert(out@ =~= pre + cases_writes(t, inner_ids@));
        }
        i = i + 1;
    }
    assert(cs@.take(cs@.len() as int) =~= cs@);
}

/// The locals a statement declares: `let` bindings and `catch` parameters,
/// at any depth of nested blocks (but not inside nested closures, which are
/// expressions).
pub open spec fn stmt_introduced(s: Stmt) -> Set<LocalId>
    decreases s,
{
    match s {
        Stmt::Let { id, .. } => set![id],
        Stmt::If { then_branch, else_branch, .. } => stmts_introduced(then_branch@) + match else_branch {
            Some(eb) => stmts_introduced(eb@),
            None => Set::empty(),
        },
        Stmt::While { body, .. } => stmts_introduced(body@),
        Stmt::DoWhile { body, .. } => stmts_introduced(body@),
        Stmt::For { init, body, .. } => (match init {
            Some(i) => stmt_introduced(*i),
            None => Set::empty(),
        }) + stmts_introduced(body@),
        Stmt::Try { body, catch, finally } => stmts_introduced(body@) + (match catch {
            Some(cc) => (match cc.param {
                Some(p) => set![p],
                None => Set::empty(),
            }) + stmts_introduced(cc.body@),
            None => Set::empty(),
        }) + match finally {
            Some(fb) => stmts_introduced(fb@),
            None => Set::empty(),
        },
        Stmt::Switch { cases, .. } => cases_introduced(cases@),
        Stmt::Labeled { body, .. } => stmt_introduced(*body),
        _ => Set::empty(),
    }
}

/// The locals a list of statements declares.
pub open spec fn stmts_introduced(ss: Seq<Stmt>) -> Set<LocalId>
    decreases ss,
{
    if ss.len() == 0 {
        Set::empty()
    } else {
        stmts_introduced(ss.drop_last()) + stmt_introduced(ss.last())
    }
}

/// The locals the case bodies of a `switch` declare.
pub open spec fn cases_introduced(cs: Seq<SwitchCase>) -> Set<LocalId>
    decreases cs,
{
    if cs.len() == 0 {
        Set::empty()
    } else {
        cases_introduced(cs.drop_last()) + stmts_introduced(cs.last().body@)
    }
}

/// Adds to `out` every local that `stmt` declares.
pub fn collect_closure_introduced_ids(stmt: &Stmt, out: &mut HashSet<LocalId>)
    ensures
        final(out)@ == old(out)@ + stmt_introduced(*stmt),
    decreases stmt,
{
    let ghost pre = out@;
    match stmt {
        Stmt::Let { id, .. } => {
            out.insert(*id);
            assert(out@ =~= pre + stmt_introduced(*stmt));
        },
        Stmt::If { then_branch, else_branch, .. } => {
            collect_stmts_introduced(then_branch, out);
            if let Some(eb) = else_branch {
                collect_stmts_introduced(eb, out);
            }
            assert(out@ =~= pre + stmt_introduced(*stmt));
        },
        Stmt::While { body, .. } => {
            collect_stmts_introduced(body, out);
        },
        Stmt::DoWhile { body, .. } => {
            collect_stmts_introduced(body, out);
        },
        Stmt::For { init, body, .. } => {
            if let Some(init_stmt) = init {
                collect_closure_introduced_ids(init_stmt, out);
            }
            collect_stmts_introduced(body, out);
            assert(out@ =~= pre + stmt_introduced(*stmt));
        },
        Stmt::Try { body, catch, finally } => {
            collect_stmts_introduced(body, out);
            if let Some(cc) = catch {
                if let Some(p) = cc.param {
                    out.insert(p);
                }
                collect_stmts_introduced(&cc.body, out);
            }
            if let Some(fb) = finally {
                collect_stmts_introduced(fb, out);
            }
            assert(out@ =~= pre + stmt_introduced(*stmt));
        },
        Stmt::Switch { cases, .. } => {
            collect_cases_introduced(cases, out);
        },
        Stmt::Labeled { body, .. } => {
            collect_closure_introduced_ids(body, out);
        },
        _ => {
            // Expression statements, returns, throws and jumps declare nothing.
            assert(out@ =~= pre + stmt_introduced(*stmt));
        },
    }
}

/// Adds to `out` every local that the statements of `ss` declare.
fn collect_stmts_introduced(ss: &Vec<Stmt>, out: &mut HashSet<LocalId>)
    ensures
        final(out)@ == old(out)@ + stmts_introduced(ss@),
    decreases ss,
{
    let ghost pre = out@;
    let mut i: usize = 0;
    while i < ss.len()
        invariant
            i <= ss@.len(),
            pre == old(out)@,
            out@ == pre + stmts_introduced(ss@.take(i as int)),
        decreases ss@.len() - i,
    {
        collect_closure_introduced_ids(&ss[i], out);
        proof {
            let t = ss@.take(i + 1);
            assert(t.drop_last() =~= ss@.take(i as int));
            assert(t.last() == ss@[i as int]);
            assert(out@ =~= pre + stmts_introduced(t));
        }
        i = i + 1;
    }
    assert(ss@.take(ss@.len() as int) =~= ss@);
}

/// Adds to `out` every local that the case bodies of a `switch` declare.
fn collect_cases_introduced(cs: &Vec<SwitchCase>, out: &mut HashSet<LocalId>)
    ensures
        final(out)@ == old(out)@ + cases_introduced(cs@),
    decreases cs,
{
    let ghost pre = out@;
    let mut i: usize = 0;
    while i < cs.len()
        invariant
            i <= cs@.len(),
            pre == old(out)@,
            out@ == pre + cases_introduced(cs@.take(i as int)),
        decreases cs@.len() - i,
    {
        collect_stmts_introduced(&cs[i].body, out);
        proof {
            let t = cs@.take(i + 1);
            assert(t.drop_last() =~= cs@.take(i as int));
            assert(t.last() == cs@[i as int]);
            assert(out@ =~= pre + cases_introduced(t));
        }
        i = i + 1;
    }
    assert(cs@.take(cs@.len() as int) =~= cs@);
}

/// Keeps the locals not in `inner`.
pub open spec fn not_in(inner: Set<LocalId>) -> spec_fn(LocalId) -> bool {
    |id: LocalId| !inner.contains(id)
}

proof fn lemma_filter_empty(p: spec_fn(LocalId) -> bool)
    ensures
        Seq::<LocalId>::empty().filter(p) == Seq::<LocalId>::empty(),
{
    reveal_with_fuel(Seq::filter, 1);
}

proof fn lemma_filter_one(id: LocalId, p: spec_fn(LocalId) -> bool)
    ensures
        seq![id].filter(p) == (if p(id) {
            seq![id]
        } else {
            Seq::<LocalId>::empty()
        }),
{
    reveal_with_fuel(Seq::filter, 2);
    assert(seq![id].drop_last() =~= Seq::<LocalId>::empty());
    assert(Seq::<LocalId>::empty().push(id) =~= seq![id]);
}

proof fn lemma_filter_cat(a: Seq<LocalId>, a_all: Seq<LocalId>, b: Seq<LocalId>, b_all: Seq<LocalId>, p: spec_fn(LocalId) -> bool)
    requires
        a == a_all.filter(p),
        b == b_all.filter(p),
    ensures
        a + b == (a_all + b_all).filter(p),
{
    Seq::filter_distributes_over_add(a_all, b_all, p);
}

proof fn lemma_expr_writes_filter(e: Expr, inner: Set<LocalId>)
    ensures
        expr_writes(e, inner) == expr_writes(e, Set::empty()).filter(not_in(inner)),
    decreases e,
{
    let p = not_in(inner);
    let none = Set::<LocalId>::empty();
    match e {
        Expr::LocalSet(id, val) => {
            lemma_filter_one(id, p);
            lemma_expr_writes_filter(*val, inner);
            lemma_filter_cat(
                if inner.contains(id) { Seq::empty() } else { seq![id] },
                seq![id],
                expr_writes(*val, inner),
                expr_writes(*val, none),
                p,
            );
        },
        Expr::Update { id } => {
            lemma_filter_one(id, p);
        },
        Expr::Binary { left, right } => {
            lemma_expr_writes_filter(*left, inner);
            lemma_expr_writes_filter(*right, inner);
            lemma_filter_cat(expr_writes(*left, inner), expr_writes(*left, none), expr_writes(*right, inner), expr_writes(*right, none), p);
        },
        Expr::Call { callee, args } => {
            lemma_expr_writes_filter(*callee, inner);
            lemma_exprs_writes_filter(args@, inner);
            lemma_filter_cat(expr_writes(*callee, inner), expr_writes(*callee, none), exprs_writes(args@, inner), exprs_writes(args@, none), p);
        },
        Expr::NativeMethodCall { object, args, .. } => {
            lemma_exprs_writes_filter(args@, inner);
            match object {
                Some(o) => {
                    lemma_expr_writes_filter(*o, inner);
                    lemma_filter_cat(expr_writes(*o, inner), expr_writes(*o, none), exprs_writes(args@, inner), exprs_writes(args@, none), p);
                },
                None => {
                    lemma_filter_empty(p);
                    lemma_filter_cat(Seq::empty(), Seq::empty(), exprs_writes(args@, inner), exprs_writes(args@, none), p);
                },
            }
        },
        Expr::PropertyGet { object, .. } => {
            lemma_expr_writes_filter(*object, inner);
        },
        Expr::IndexGet { object, index } => {
            lemma_expr_writes_filter(*object, inner);
            lemma_expr_writes_filter(*index, inner);
            lemma_filter_cat(expr_writes(*object, inner), expr_writes(*object, none), expr_writes(*index, inner), expr_writes(*index, none), p);
        },
        Expr::Array(elems) => {
            lemma_exprs_writes_filter(elems@, inner);
        },
        Expr::Sequence(es) => {
            lemma_exprs_writes_filter(es@, inner);
        },
        Expr::New { args, .. } => {
            lemma_exprs_writes_filter(args@, inner);
        },
        Expr::SymbolFor(d) => {
            lemma_expr_writes_filter(*d, inner);
        },
        Expr::Object(props) => {
            lemma_props_writes_filter(props@, inner);
        },
        Expr::Conditional { condition, then_expr, else_expr } => {
            lemma_expr_writes_filter(*condition, inner);
            lemma_expr_writes_filter(*then_expr, inner);
            lemma_expr_writes_filter(*else_expr, inner);
            lemma_filter_cat(expr_writes(*condition, inner), expr_writes(*condition, none), expr_writes(*then_expr, inner), expr_writes(*then_expr, none), p);
            lemma_filter_cat(
                expr_writes(*condition, inner) + expr_writes(*then_expr, inner),
                expr_writes(*condition, none) + expr_writes(*then_expr, none),
                expr_writes(*else_expr, inner),
                expr_writes(*else_expr, none),
                p,
            );
        },
        _ => {
            lemma_filter_empty(p);
        },
    }
}

proof fn lemma_exprs_writes_filter(es: Seq<Expr>, inner: Set<LocalId>)
    ensures
        exprs_writes(es, inner) == exprs_writes(es, Set::empty()).filter(not_in(inner)),
    decreases es,
{
    if es.len() == 0 {
        lemma_filter_empty(not_in(inner));
    } else {
        lemma_exprs_writes_filter(es.drop_last(), inner);
        lemma_expr_writes_filter(es.last(), inner);
        lemma_filter_cat(
            exprs_writes(es.drop_last(), inner),
            exprs_writes(es.drop_last(), Set::empty()),
            expr_writes(es.last(), inner),
            expr_writes(es.last(), Set::empty()),
            not_in(inner),
        );
    }
}

proof fn lemma_props_writes_filter(ps: Seq<(String, Expr)>, inner: Set<LocalId>)
    ensures
        props_writes(ps, inner) == props_writes(ps, Set::empty()).filter(not_in(inner)),
    decreases ps,
{
    if ps.len() == 0 {
        lemma_filter_empty(not_in(inner));
    } else {
        lemma_props_writes_filter(ps.drop_last(), inner);
        lemma_expr_writes_filter(ps.last().1, inner);
        lemma_filter_cat(
            props_writes(ps.drop_last(), inner),
            props_writes(ps.drop_last(), Set::empty()),
            expr_writes(ps.last().1, inner),
            expr_writes(ps.last().1, Set::empty()),
            not_in(inner),
        );
    }
}

proof fn lemma_opt_writes_filter(e: Option<Expr>, inner: Set<LocalId>)
    ensures
        opt_expr_writes(e, inner) == opt_expr_writes(e, Set::empty()).filter(not_in(inner)),
    decreases e,
{
    match e {
        Some(x) => lemma_expr_writes_filter(x, inner),
        None => lemma_filter_empty(not_in(inner)),
    }
}

proof fn lemma_stmt_writes_filter(s: Stmt, inner: Set<LocalId>)
    ensures
        stmt_writes(s, inner) == stmt_writes(s, Set::empty()).filter(not_in(inner)),
    decreases s,
{
    let p = not_in(inner);
    let none = Set::<LocalId>::empty();
    match s {
        Stmt::Let { init, .. } => lemma_opt_writes_filter(init, inner),
        Stmt::Expr(e) => lemma_expr_writes_filter(e, inner),
        Stmt::Return(e) => lemma_opt_writes_filter(e, inner),
        Stmt::Throw(e) => lemma_expr_writes_filter(e, inner),
        Stmt::If { condition, then_branch, else_branch } => {
            lemma_expr_writes_filter(condition, inner);
            lemma_stmts_writes_filter(then_branch@, inner);
            lemma_filter_cat(expr_writes(condition, inner), expr_writes(condition, none), stmts_writes(then_branch@, inner), stmts_writes(then_branch@, none), p);
            let (eb_in, eb_all) = match else_branch {
                Some(eb) => (stmts_writes(eb@, inner), stmts_writes(eb@, none)),
                None => (Seq::empty(), Seq::empty()),
            };
            match else_branch {
                Some(eb) => lemma_stmts_writes_filter(eb@, inner),
                None => lemma_filter_empty(p),
            }
            lemma_filter_cat(
                expr_writes(condition, inner) + stmts_writes(then_branch@, inner),
                expr_writes(condition, none) + stmts_writes(then_branch@, none),
                eb_in,
                eb_all,
                p,
            );
        },
        Stmt::While { condition, body } => {
            lemma_expr_writes_filter(condition, inner);
            lemma_stmts_writes_filter(body@, inner);
            lemma_filter_cat(expr_writes(condition, inner), expr_writes(condition, none), stmts_writes(body@, inner), stmts_writes(body@, none), p);
        },
        Stmt::DoWhile { body, condition } => {
            lemma_expr_writes_filter(condition, inner);
            lemma_stmts_writes_filter(body@, inner);
            lemma_filter_cat(stmts_writes(body@, inner), stmts_writes(body@, none), expr_writes(condition, inner), expr_writes(condition, none), p);
        },
        Stmt::For { init, condition, update, body } => {
            let (i_in, i_all) = match init {
                Some(i) => (stmt_writes(*i, inner), stmt_writes(*i, none)),
                None => (Seq::empty(), Seq::empty()),
            };
            match init {
                Some(i) => lemma_stmt_writes_filter(*i, inner),
                None => lemma_filter_empty(p),
            }
            lemma_opt_writes_filter(condition, inner);
            lemma_opt_writes_filter(update, inner);
            lemma_stmts_writes_filter(body@, inner);
            lemma_filter_cat(i_in, i_all, opt_expr_writes(condition, inner), opt_expr_writes(condition, none), p);
            lemma_filter_cat(
                i_in + opt_expr_writes(condition, inner),
                i_all + opt_expr_writes(condition, none),
                opt_expr_writes(update, inner),
                opt_expr_writes(update, none),
                p,
            );
            lemma_filter_cat(
                i_in + opt_expr_writes(condition, inner) + opt_expr_writes(update, inner),
                i_all + opt_expr_writes(condition, none) + opt_expr_writes(update, none),
                stmts_writes(body@, inner),
                stmts_writes(body@, none),
                p,
            );
        },
        Stmt::Try { body, catch, finally } => {
            lemma_stmts_writes_filter(body@, inner);
            let (c_in, c_all) = match catch {
                Some(cc) => (stmts_writes(cc.body@, inner), stmts_writes(cc.body@, none)),
                None => (Seq::empty(), Seq::empty()),
            };
            match catch {
                Some(cc) => lemma_stmts_writes_filter(cc.body@, inner),
                None => lemma_filter_empty(p),
            }
            let (f_in, f_all) = match finally {
                Some(fb) => (stmts_writes(fb@, inner), stmts_writes(fb@, none)),
                None => (Seq::empty(), Seq::empty()),
            };
            match finally {
                Some(fb) => lemma_stmts_writes_filter(fb@, inner),
                None => lemma_filter_empty(p),
            }
            lemma_filter_cat(stmts_writes(body@, inner), stmts_writes(body@, none), c_in, c_all, p);
            lemma_filter_cat(stmts_writes(body@, inner) + c_in, stmts_writes(body@, none) + c_all, f_in, f_all, p);
        },
        Stmt::Switch { discriminant, cases } => {
            lemma_expr_writes_filter(discriminant, inner);
            lemma_cases_writes_filter(cases@, inner);
            lemma_filter_cat(expr_writes(discriminant, inner), expr_writes(discriminant, none), cases_writes(cases@, inner), cases_writes(cases@, none), p);
        },
        Stmt::Labeled { body, .. } => lemma_stmt_writes_filter(*body, inner),
        _ => lemma_filter_empty(p),
    }
}

proof fn lemma_stmts_writes_filter(ss: Seq<Stmt>, inner: Set<LocalId>)
    ensures
        stmts_writes(ss, inner) == stmts_writes(ss, Set::empty()).filter(not_in(inner)),
    decreases ss,
{
    if ss.len() == 0 {
        lemma_filter_empty(not_in(inner));
    } else {
        lemma_stmts_writes_filter(ss.drop_last(), inner);
        lemma_stmt_writes_filter(ss.last(), inner);
        lemma_filter_cat(
            stmts_writes(ss.drop_last(), inner),
            stmts_writes(ss.drop_last(), Set::empty()),
            stmt_writes(ss.last(), inner),
            stmt_writes(ss.last(), Set::empty()),
            not_in(inner),
        );
    }
}

proof fn lemma_cases_writes_filter(cs: Seq<SwitchCase>, inner: Set<LocalId>)
    ensures
        cases_writes(cs, inner) == cases_writes(cs, Set::empty()).filter(not_in(inner)),
    decreases cs,
{
    if cs.len() == 0 {
        lemma_filter_empty(not_in(inner));
    } else {
        let none = Set::<LocalId>::empty();
        let c = cs.last();
        lemma_cases_writes_filter(cs.drop_last(), inner);
        lemma_opt_writes_filter(c.test, inner);
        lemma_stmts_writes_filter(c.body@, inner);
        lemma_filter_cat(cases_writes(cs.drop_last(), inner), cases_writes(cs.drop_last(), none), opt_expr_writes(c.test, inner), opt_expr_writes(c.test, none), not_in(inner));
        lemma_filter_cat(
            cases_writes(cs.drop_last(), inner) + opt_expr_writes(c.test, inner),
            cases_writes(cs.drop_last(), none) + opt_expr_writes(c.test, none),
            stmts_writes(c.body@, inner),
            stmts_writes(c.body@, none),
            not_in(inner),
        );
    }
}

/// The writes reported for a closure body are exactly its writes to any
/// local, in evaluation order, with those to the locals in `inner` left out:
/// a write is reported if and only if its local is not one of the closure's
/// own.
pub proof fn law_outer_writes_are_the_uncovered_writes(s: Stmt, inner: Set<LocalId>)
    ensures
        stmt_writes(s, inner) == stmt_writes(s, Set::empty()).filter(not_in(inner)),
        forall|k: int| 0 <= k < stmt_writes(s, inner).len() ==> !inner.contains(#[trigger] stmt_writes(s, inner)[k]),
{
    lemma_stmt_writes_filter(s, inner);
    let all = stmt_writes(s, Set::empty());
    assert forall|k: int| 0 <= k < stmt_writes(s, inner).len() implies !inner.contains(#[trigger] stmt_writes(s, inner)[k]) by {
        all.lemma_filter_pred(not_in(inner), k);
    }
}

/// A closure body that writes only locals in `inner` (typically the locals
/// it declares itself) has no outer writes reported.
pub proof fn law_own_writes_not_reported(s: Stmt, inner: Set<LocalId>)
    requires
        forall|k: int| 0 <= k < stmt_writes(s, Set::empty()).len() ==> inner.contains(
            #[trigger] stmt_writes(s, Set::empty())[k],
        ),
    ensures
        stmt_writes(s, inner).len() == 0,
{
    lemma_stmt_writes_filter(s, inner);
    let all = stmt_writes(s, Set::empty());
    let out = stmt_writes(s, inner);
    if out.len() > 0 {
        let x = out[0];
        assert(out.contains(x));
        all.lemma_filter_contains_rev(not_in(inner), x);
        all.lemma_filter_pred(not_in(inner), 0);
        let k = choose|k: int| 0 <= k < all.len() && all[k] == x;
        assert(inner.contains(all[k]));
    }
}

} // verus!
