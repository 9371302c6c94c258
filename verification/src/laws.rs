//! The laws the transformation obeys, proved once and for all inputs.

use vstd::prelude::*;

use crate::ast::{ArmV, BlockV, ExprV, FnDefV, StmtV};
use crate::rewrite::{
    resumed, returned, rw_arm, rw_arms, rw_block, rw_expr, rw_exprs, rw_stmt, rw_stmts,
};
use crate::transform::{already_transformed, transformed_def};

verus! {

broadcast use vstd::seq::axiom_seq_subrange_decreases, vstd::seq::axiom_seq_index_decreases;

/// Idempotence: transforming a definition twice gives exactly what
/// transforming it once gives. A transformed body ends in the finalized
/// driving loop, which the second application recognizes and leaves
/// untouched.
pub proof fn theorem_transform_idempotent(d: FnDefV)
    ensures
        transformed_def(transformed_def(d)) == transformed_def(d),
{
    if !already_transformed(d.body) {
        assert(already_transformed(transformed_def(d).body));
    }
}


/// The transformation keeps the external signature: same name, same
/// parameters, same return type.
pub proof fn theorem_signature_preserved(d: FnDefV)
    ensures
        transformed_def(d).sig == d.sig,
{
}

/// Arm coverage: rewriting a match in tail position rewrites exactly its
/// arms, each independently. An arm whose body is a self-call becomes a
/// resumption carrying that call's arguments; an arm whose body is a call
/// to any other function, or a plain value, becomes a terminal carrying
/// the body unchanged.
pub proof fn theorem_arm_coverage(name: Seq<char>, scrutinee: Box<ExprV>, arms: Seq<ArmV>)
    ensures
        rw_expr(name, ExprV::Match { scrutinee, arms }, true) == (ExprV::Match {
            scrutinee: Box::new(rw_expr(name, *scrutinee, false)),
            arms: rw_arms(name, arms, true),
        }),
        rw_arms(name, arms, true).len() == arms.len(),
        forall|i: int|
            0 <= i < arms.len() ==> ((#[trigger] arms[i].body) matches ExprV::Call { callee, args } ==> (
            callee == name ==> rw_arms(name, arms, true)[i].body == resumed(args))),
        forall|i: int|
            0 <= i < arms.len() ==> ((#[trigger] arms[i].body) matches ExprV::Call { callee, args } ==> (
            callee != name ==> rw_arms(name, arms, true)[i].body == returned(arms[i].body))),
        forall|i: int|
            0 <= i < arms.len() ==> (((#[trigger] arms[i].body) is Other || arms[i].body is Unit)
                ==> rw_arms(name, arms, true)[i].body == returned(arms[i].body)),
{
    broadcast use crate::rewrite::group_rw_lemmas;

    assert forall|i: int| 0 <= i < arms.len() implies rw_arms(name, arms, true)[i] == rw_arm(
        name,
        arms[i],
        true,
    ) by {
    }
}

/// No explicit `return` occurs anywhere in the expression (the walk does
/// not enter finalized subtrees or generated forms, so they count as free
/// of returns).
pub open spec fn return_free_expr(e: ExprV) -> bool
    decreases e,
{
    match e {
        ExprV::Call { callee, args } => return_free_exprs(args),
        ExprV::MethodCall { receiver, method, args } => return_free_expr(*receiver)
            && return_free_exprs(args),
        ExprV::Match { scrutinee, arms } => return_free_expr(*scrutinee) && return_free_arms(arms),
        ExprV::If { cond, then_branch, else_branch } => return_free_expr(*cond)
            && return_free_block(then_branch) && (match else_branch {
            Some(e2) => return_free_expr(*e2),
            None => true,
        }),
        ExprV::Block(b) => return_free_block(b),
        ExprV::Return(_) => false,
        ExprV::Opaque(_) => true,
        ExprV::ContinueWith(_) => true,
        ExprV::ReturnValue(_) => true,
        ExprV::Driver(_) => true,
        ExprV::Unit => true,
        ExprV::Other(_) => true,
    }
}

pub open spec fn return_free_exprs(s: Seq<ExprV>) -> bool
    decreases s,
{
    if s.len() == 0 {
        true
    } else {
        return_free_exprs(s.subrange(0, s.len() - 1)) && return_free_expr(s[s.len() - 1])
    }
}

pub open spec fn return_free_arms(s: Seq<ArmV>) -> bool
    decreases s,
{
    if s.len() == 0 {
        true
    } else {
        return_free_arms(s.subrange(0, s.len() - 1)) && return_free_expr(s[s.len() - 1].body)
    }
}

pub open spec fn return_free_block(b: BlockV) -> bool
    decreases b,
{
    return_free_stmts(b.stmts) && (match b.tail {
        Some(e) => return_free_expr(*e),
        None => true,
    })
}

pub open spec fn return_free_stmt(s: StmtV) -> bool
    decreases s,
{
    match s {
        StmtV::Expr(e) => return_free_expr(e),
        StmtV::Other(_) => true,
        StmtV::ActionDecl => true,
        StmtV::InnerFn { .. } => true,
        StmtV::AccInit(_) => true,
    }
}

pub open spec fn return_free_stmts(s: Seq<StmtV>) -> bool
    decreases s,
{
    if s.len() == 0 {
        true
    } else {
        return_free_stmts(s.subrange(0, s.len() - 1)) && return_free_stmt(s[s.len() - 1])
    }
}

/// Non-tail positions are preserved verbatim: an expression with no
/// explicit `return` inside — a recursive call among them, however deep it
/// stands in another call's arguments — comes out of the rewrite
/// unchanged when it is not in tail position.
pub proof fn theorem_non_tail_preserved(name: Seq<char>, e: ExprV)
    requires
        return_free_expr(e),
    ensures
        rw_expr(name, e, false) == e,
    decreases e,
{
    match e {
        ExprV::Call { callee, args } => {
            lemma_non_tail_preserved_exprs(name, args);
        },
        ExprV::MethodCall { receiver, method, args } => {
            theorem_non_tail_preserved(name, *receiver);
            lemma_non_tail_preserved_exprs(name, args);
        },
        ExprV::Match { scrutinee, arms } => {
            theorem_non_tail_preserved(name, *scrutinee);
            lemma_non_tail_preserved_arms(name, arms);
        },
        ExprV::If { cond, then_branch, else_branch } => {
            theorem_non_tail_preserved(name, *cond);
            lemma_non_tail_preserved_block(name, then_branch);
            match else_branch {
                Some(e2) => theorem_non_tail_preserved(name, *e2),
                None => (),
            }
        },
        ExprV::Block(b) => {
            lemma_non_tail_preserved_block(name, b);
        },
        _ => (),
    }
}

pub proof fn lemma_non_tail_preserved_exprs(name: Seq<char>, s: Seq<ExprV>)
    requires
        return_free_exprs(s),
    ensures
        rw_exprs(name, s) == s,
    decreases s,
{
    if s.len() > 0 {
        lemma_non_tail_preserved_exprs(name, s.subrange(0, s.len() - 1));
        theorem_non_tail_preserved(name, s[s.len() - 1]);
        assert(rw_exprs(name, s) =~= s);
    }
}

pub proof fn lemma_non_tail_preserved_arms(name: Seq<char>, s: Seq<ArmV>)
    requires
        return_free_arms(s),
    ensures
        rw_arms(name, s, false) == s,
    decreases s,
{
    if s.len() > 0 {
        lemma_non_tail_preserved_arms(name, s.subrange(0, s.len() - 1));
        theorem_non_tail_preserved(name, s[s.len() - 1].body);
        assert(rw_arm(name, s[s.len() - 1], false) == s[s.len() - 1]);
        assert(rw_arms(name, s, false) =~= s);
    }
}

pub proof fn lemma_non_tail_preserved_block(name: Seq<char>, b: BlockV)
    requires
        return_free_block(b),
    ensures
        rw_block(name, b, false) == b,
    decreases b,
{
    lemma_non_tail_preserved_stmts(name, b.stmts);
    match b.tail {
        Some(e) => theorem_non_tail_preserved(name, *e),
        None => (),
    }
}

pub proof fn lemma_non_tail_preserved_stmt(name: Seq<char>, s: StmtV)
    requires
        return_free_stmt(s),
    ensures
        rw_stmt(name, s) == s,
    decreases s,
{
    match s {
        StmtV::Expr(e) => theorem_non_tail_preserved(name, e),
        _ => (),
    }
}

pub proof fn lemma_non_tail_preserved_stmts(name: Seq<char>, s: Seq<StmtV>)
    requires
        return_free_stmts(s),
    ensures
        rw_stmts(name, s) == s,
    decreases s,
{
    if s.len() > 0 {
        lemma_non_tail_preserved_stmts(name, s.subrange(0, s.len() - 1));
        lemma_non_tail_preserved_stmt(name, s[s.len() - 1]);
        assert(rw_stmts(name, s) =~= s);
    }
}

/// The idempotence guard does its work: rewriting an already-rewritten
/// tree changes nothing, at either position, because every finalized
/// subtree was wrapped `Opaque` and every non-tail subtree kept its shape.
pub proof fn theorem_rewrite_stable(name: Seq<char>, e: ExprV, tail: bool)
    ensures
        rw_expr(name, rw_expr(name, e, tail), tail) == rw_expr(name, e, tail),
    decreases e,
{
    reveal_with_fuel(rw_expr, 3);
    match e {
        ExprV::Call { callee, args } => {
            if !tail {
                lemma_rewrite_stable_exprs(name, args);
            }
        },
        ExprV::MethodCall { receiver, method, args } => {
            if !tail {
                theorem_rewrite_stable(name, *receiver, false);
                lemma_rewrite_stable_exprs(name, args);
            }
        },
        ExprV::Match { scrutinee, arms } => {
            theorem_rewrite_stable(name, *scrutinee, false);
            lemma_rewrite_stable_arms(name, arms, tail);
        },
        ExprV::If { cond, then_branch, else_branch } => {
            theorem_rewrite_stable(name, *cond, false);
            lemma_rewrite_stable_block(name, then_branch, tail);
            match else_branch {
                Some(e2) => theorem_rewrite_stable(name, *e2, tail),
                None => (),
            }
        },
        ExprV::Block(b) => {
            lemma_rewrite_stable_block(name, b, tail);
        },
        ExprV::Return(op) => {
            match op {
                Some(inner) => theorem_rewrite_stable(name, *inner, true),
                None => (),
            }
        },
        _ => (),
    }
}

pub proof fn lemma_rewrite_stable_exprs(name: Seq<char>, s: Seq<ExprV>)
    ensures
        rw_exprs(name, rw_exprs(name, s)) == rw_exprs(name, s),
    decreases s,
{
    broadcast use crate::rewrite::group_rw_lemmas;

    if s.len() > 0 {
        lemma_rewrite_stable_exprs(name, s.subrange(0, s.len() - 1));
        theorem_rewrite_stable(name, s[s.len() - 1], false);
        assert(rw_exprs(name, rw_exprs(name, s)) =~= rw_exprs(name, s));
    }
}

pub proof fn lemma_rewrite_stable_arms(name: Seq<char>, s: Seq<ArmV>, tail: bool)
    ensures
        rw_arms(name, rw_arms(name, s, tail), tail) == rw_arms(name, s, tail),
    decreases s,
{
    broadcast use crate::rewrite::group_rw_lemmas;

    if s.len() > 0 {
        lemma_rewrite_stable_arms(name, s.subrange(0, s.len() - 1), tail);
        theorem_rewrite_stable(name, s[s.len() - 1].body, tail);
        assert(rw_arm(name, rw_arm(name, s[s.len() - 1], tail), tail) == rw_arm(
            name,
            s[s.len() - 1],
            tail,
        ));
        assert(rw_arms(name, rw_arms(name, s, tail), tail) =~= rw_arms(name, s, tail));
    }
}

pub proof fn lemma_rewrite_stable_block(name: Seq<char>, b: BlockV, tail: bool)
    ensures
        rw_block(name, rw_block(name, b, tail), tail) == rw_block(name, b, tail),
    decreases b,
{
    reveal_with_fuel(rw_block, 2);
    reveal_with_fuel(rw_expr, 3);
    lemma_rewrite_stable_stmts(name, b.stmts);
    match b.tail {
        Some(e) => theorem_rewrite_stable(name, *e, tail),
        None => (),
    }
}

pub proof fn lemma_rewrite_stable_stmt(name: Seq<char>, s: StmtV)
    ensures
        rw_stmt(name, rw_stmt(name, s)) == rw_stmt(name, s),
    decreases s,
{
    reveal_with_fuel(rw_stmt, 2);
    match s {
        StmtV::Expr(e) => theorem_rewrite_stable(name, e, false),
        _ => (),
    }
}

pub proof fn lemma_rewrite_stable_stmts(name: Seq<char>, s: Seq<StmtV>)
    ensures
        rw_stmts(name, rw_stmts(name, s)) == rw_stmts(name, s),
    decreases s,
{
    broadcast use crate::rewrite::group_rw_lemmas;

    if s.len() > 0 {
        lemma_rewrite_stable_stmts(name, s.subrange(0, s.len() - 1));
        lemma_rewrite_stable_stmt(name, s[s.len() - 1]);
        assert(rw_stmts(name, rw_stmts(name, s)) =~= rw_stmts(name, s));
    }
}

} // verus!
