//! Tail-position classification and rewriting: the ghost rewrite rules,
//! and the executable rewriter proved to follow them exactly.
//!
//! A tail position is rewritten into one of two tagged forms — a
//! resumption carrying the next argument tuple, or a terminal value — and
//! the result is wrapped `Opaque` so that a later pass never re-rewrites
//! it. The operand of an explicit `return` is a tail position wherever the
//! `return` stands. Expressions in non-tail positions keep their shape:
//! the walk only descends through them to reach nested `return`s.

use vstd::prelude::*;

use crate::ast::{Arm, ArmV, Block, BlockV, Expr, ExprV, Stmt, StmtV};
use crate::ast::{copy_block, copy_expr, copy_exprs, copy_sig, copy_texts};
use crate::ast::{view_arms, view_exprs, view_stmts, view_texts};

verus! {

broadcast use vstd::seq::axiom_seq_subrange_decreases, vstd::seq::axiom_seq_index_decreases;

/// The finalized form a rewritten tail position takes when it produces a
/// terminal value `e`.
pub open spec fn returned(e: ExprV) -> ExprV {
    ExprV::Opaque(Box::new(ExprV::ReturnValue(Box::new(e))))
}

/// The finalized form a rewritten self-call takes: a resumption carrying
/// the call's arguments, in their original order.
pub open spec fn resumed(args: Seq<ExprV>) -> ExprV {
    ExprV::Opaque(Box::new(ExprV::ContinueWith(args)))
}

/// The finalized form of a control path that produced no value: a
/// terminal unit.
pub open spec fn returned_unit() -> ExprV {
    returned(ExprV::Unit)
}

/// The rewrite of one expression. `name` is the identifier of the
/// function being transformed; `tail` says whether `e` stands in tail
/// position.
pub open spec fn rw_expr(name: Seq<char>, e: ExprV, tail: bool) -> ExprV
    decreases e,
{
    match e {
        ExprV::Call { callee, args } => if tail {
            if callee == name {
                resumed(args)
            } else {
                returned(ExprV::Call { callee, args })
            }
        } else {
            ExprV::Call { callee, args: rw_exprs(name, args) }
        },
        ExprV::MethodCall { receiver, method, args } => if tail {
            if method == name {
                resumed(args)
            } else {
                returned(ExprV::MethodCall { receiver, method, args })
            }
        } else {
            ExprV::MethodCall {
                receiver: Box::new(rw_expr(name, *receiver, false)),
                method,
                args: rw_exprs(name, args),
            }
        },
        ExprV::Match { scrutinee, arms } => ExprV::Match {
            scrutinee: Box::new(rw_expr(name, *scrutinee, false)),
            arms: rw_arms(name, arms, tail),
        },
        ExprV::If { cond, then_branch, else_branch } => ExprV::If {
            cond: Box::new(rw_expr(name, *cond, false)),
            then_branch: rw_block(name, then_branch, tail),
            else_branch: match else_branch {
                Some(e2) => Some(Box::new(rw_expr(name, *e2, tail))),
                None => if tail {
                    Some(Box::new(returned_unit()))
                } else {
                    None
                },
            },
        },
        ExprV::Block(b) => ExprV::Block(rw_block(name, b, tail)),
        ExprV::Return(op) => ExprV::Return(
            Some(Box::new(
                match op {
                    Some(inner) => rw_expr(name, *inner, true),
                    None => returned_unit(),
                },
            )),
        ),
        ExprV::Opaque(inner) => ExprV::Opaque(inner),
        ExprV::ContinueWith(args) => if tail {
            returned(ExprV::ContinueWith(args))
        } else {
            ExprV::ContinueWith(args)
        },
        ExprV::ReturnValue(inner) => if tail {
            returned(ExprV::ReturnValue(inner))
        } else {
            ExprV::ReturnValue(inner)
        },
        ExprV::Driver(n) => if tail {
            returned(ExprV::Driver(n))
        } else {
            ExprV::Driver(n)
        },
        ExprV::Unit => if tail {
            returned_unit()
        } else {
            ExprV::Unit
        },
        ExprV::Other(text) => if tail {
            returned(ExprV::Other(text))
        } else {
            ExprV::Other(text)
        },
    }
}

/// The rewrite of an argument list: arguments stand in non-tail position.
pub open spec fn rw_exprs(name: Seq<char>, s: Seq<ExprV>) -> Seq<ExprV>
    decreases s,
{
    if s.len() == 0 {
        Seq::empty()
    } else {
        rw_exprs(name, s.subrange(0, s.len() - 1)).push(rw_expr(name, s[s.len() - 1], false))
    }
}

/// The rewrite of match arms: each arm's body stands in tail position
/// exactly when the whole match does.
pub open spec fn rw_arms(name: Seq<char>, s: Seq<ArmV>, tail: bool) -> Seq<ArmV>
    decreases s,
{
    if s.len() == 0 {
        Seq::empty()
    } else {
        rw_arms(name, s.subrange(0, s.len() - 1), tail).push(
            rw_arm(name, s[s.len() - 1], tail),
        )
    }
}

pub open spec fn rw_arm(name: Seq<char>, a: ArmV, tail: bool) -> ArmV
    decreases a,
{
    ArmV { pat: a.pat, body: rw_expr(name, a.body, tail) }
}

/// The rewrite of a block. Its statements are non-tail positions; its
/// trailing expression is in tail position exactly when the block is.
/// A block in tail position with no trailing expression gains a terminal
/// unit, so that the path that fell off its end produces an action too.
pub open spec fn rw_block(name: Seq<char>, b: BlockV, tail: bool) -> BlockV
    decreases b,
{
    BlockV {
        stmts: rw_stmts(name, b.stmts),
        tail: match b.tail {
            Some(e) => Some(Box::new(rw_expr(name, *e, tail))),
            None => if tail {
                Some(Box::new(returned_unit()))
            } else {
                None
            },
        },
    }
}

/// The rewrite of one statement: never a tail position, walked only to
/// reach the `return`s inside it. A nested function is not entered: a
/// `return` in it belongs to that function.
pub open spec fn rw_stmt(name: Seq<char>, s: StmtV) -> StmtV
    decreases s,
{
    match s {
        StmtV::Expr(e) => StmtV::Expr(rw_expr(name, e, false)),
        StmtV::Other(text) => StmtV::Other(text),
        StmtV::ActionDecl => StmtV::ActionDecl,
        StmtV::InnerFn { sig, body } => StmtV::InnerFn { sig, body },
        StmtV::AccInit(pats) => StmtV::AccInit(pats),
    }
}

pub open spec fn rw_stmts(name: Seq<char>, s: Seq<StmtV>) -> Seq<StmtV>
    decreases s,
{
    if s.len() == 0 {
        Seq::empty()
    } else {
        rw_stmts(name, s.subrange(0, s.len() - 1)).push(rw_stmt(name, s[s.len() - 1]))
    }
}

pub broadcast proof fn lemma_rw_exprs(name: Seq<char>, s: Seq<ExprV>)
    ensures
        #![trigger rw_exprs(name, s)]
        rw_exprs(name, s).len() == s.len(),
        forall|i: int| 0 <= i < s.len() ==> rw_exprs(name, s)[i] == rw_expr(name, s[i], false),
    decreases s,
{
    if s.len() > 0 {
        lemma_rw_exprs(name, s.subrange(0, s.len() - 1));
    }
}

pub broadcast proof fn lemma_rw_arms(name: Seq<char>, s: Seq<ArmV>, tail: bool)
    ensures
        #![trigger rw_arms(name, s, tail)]
        rw_arms(name, s, tail).len() == s.len(),
        forall|i: int| 0 <= i < s.len() ==> rw_arms(name, s, tail)[i] == rw_arm(
            name,
            s[i],
            tail,
        ),
    decreases s,
{
    if s.len() > 0 {
        lemma_rw_arms(name, s.subrange(0, s.len() - 1), tail);
    }
}

pub broadcast proof fn lemma_rw_stmts(name: Seq<char>, s: Seq<StmtV>)
    ensures
        #![trigger rw_stmts(name, s)]
        rw_stmts(name, s).len() == s.len(),
        forall|i: int| 0 <= i < s.len() ==> rw_stmts(name, s)[i] == rw_stmt(name, s[i]),
    decreases s,
{
    if s.len() > 0 {
        lemma_rw_stmts(name, s.subrange(0, s.len() - 1));
    }
}


/// A broadcast group for the pointwise shape of the list rewrites.
pub broadcast group group_rw_lemmas {
    lemma_rw_exprs,
    lemma_rw_arms,
    lemma_rw_stmts,
}


/// The rewrite context: the identifier of the function being transformed,
/// used to decide whether a call is self-recursive. Read-only for the
/// duration of one transformation.
pub struct RewriteContext {
    pub ident: String,
}

impl RewriteContext {
    pub fn new(ident: String) -> (r: RewriteContext)
        ensures
            r.ident@ == ident@,
    {
        RewriteContext { ident }
    }

    /// Rewrites one expression, classified by the tail-position rules.
    pub fn rewrite_expr(&self, e: &Expr, tail: bool) -> (r: Expr)
        ensures
            r@ == rw_expr(self.ident@, e@, tail),
        decreases e,
    {
        broadcast use crate::ast::group_ast_views, group_rw_lemmas;

        proof {
            reveal_with_fuel(crate::ast::view_expr, 5);
        }
        match e {
            Expr::Call { callee, args } => {
                if tail {
                    if callee.eq(&self.ident) {
                        let a2 = copy_exprs(args);
                        proof {
                            assert(view_exprs(a2@) =~= view_exprs(args@));
                        }
                        Expr::Opaque(Box::new(Expr::ContinueWith(a2)))
                    } else {
                        let a2 = copy_exprs(args);
                        proof {
                            assert(view_exprs(a2@) =~= view_exprs(args@));
                        }
                        Expr::Opaque(Box::new(Expr::ReturnValue(Box::new(
                            Expr::Call { callee: callee.clone(), args: a2 },
                        ))))
                    }
                } else {
                    let a2 = self.rewrite_exprs(args);
                    proof {
                        assert(view_exprs(a2@) =~= rw_exprs(self.ident@, view_exprs(args@)));
                    }
                    Expr::Call { callee: callee.clone(), args: a2 }
                }
            },
            Expr::MethodCall { receiver, method, args } => {
                if tail {
                    if method.eq(&self.ident) {
                        let a2 = copy_exprs(args);
                        proof {
                            assert(view_exprs(a2@) =~= view_exprs(args@));
                        }
                        Expr::Opaque(Box::new(Expr::ContinueWith(a2)))
                    } else {
                        let a2 = copy_exprs(args);
                        proof {
                            assert(view_exprs(a2@) =~= view_exprs(args@));
                        }
                        Expr::Opaque(Box::new(Expr::ReturnValue(Box::new(
                            Expr::MethodCall {
                                receiver: Box::new(copy_expr(receiver)),
                                method: method.clone(),
                                args: a2,
                            },
                        ))))
                    }
                } else {
                    let a2 = self.rewrite_exprs(args);
                    proof {
                        assert(view_exprs(a2@) =~= rw_exprs(self.ident@, view_exprs(args@)));
                    }
                    Expr::MethodCall {
                        receiver: Box::new(self.rewrite_expr(receiver, false)),
                        method: method.clone(),
                        args: a2,
                    }
                }
            },
            Expr::Match { scrutinee, arms } => {
                let a2 = self.rewrite_arms(arms, tail);
                proof {
                    assert(view_arms(a2@) =~= rw_arms(self.ident@, view_arms(arms@), tail));
                }
                Expr::Match {
                    scrutinee: Box::new(self.rewrite_expr(scrutinee, false)),
                    arms: a2,
                }
            },
            Expr::If { cond, then_branch, else_branch } => Expr::If {
                cond: Box::new(self.rewrite_expr(cond, false)),
                then_branch: self.rewrite_block(then_branch, tail),
                else_branch: match else_branch {
                    Some(e2) => Some(Box::new(self.rewrite_expr(e2, tail))),
                    None => if tail {
                        Some(Box::new(Expr::Opaque(Box::new(Expr::ReturnValue(Box::new(
                            Expr::Unit,
                        ))))))
                    } else {
                        None
                    },
                },
            },
            Expr::Block(b) => Expr::Block(self.rewrite_block(b, tail)),
            Expr::Return(op) => Expr::Return(
                Some(Box::new(
                    match op {
                        Some(inner) => self.rewrite_expr(inner, true),
                        None => Expr::Opaque(Box::new(Expr::ReturnValue(Box::new(Expr::Unit)))),
                    },
                )),
            ),
            Expr::Opaque(inner) => Expr::Opaque(Box::new(copy_expr(inner))),
            Expr::ContinueWith(args) => {
                let a2 = copy_exprs(args);
                proof {
                    assert(view_exprs(a2@) =~= view_exprs(args@));
                }
                if tail {
                    Expr::Opaque(Box::new(Expr::ReturnValue(Box::new(Expr::ContinueWith(a2)))))
                } else {
                    Expr::ContinueWith(a2)
                }
            },
            Expr::ReturnValue(inner) => {
                let i2 = Box::new(copy_expr(inner));
                if tail {
                    Expr::Opaque(Box::new(Expr::ReturnValue(Box::new(Expr::ReturnValue(i2)))))
                } else {
                    Expr::ReturnValue(i2)
                }
            },
            Expr::Driver(name) => {
                if tail {
                    Expr::Opaque(Box::new(Expr::ReturnValue(Box::new(Expr::Driver(
                        name.clone(),
                    )))))
                } else {
                    Expr::Driver(name.clone())
                }
            },
            Expr::Unit => {
                if tail {
                    Expr::Opaque(Box::new(Expr::ReturnValue(Box::new(Expr::Unit))))
                } else {
                    Expr::Unit
                }
            },
            Expr::Other(text) => {
                if tail {
                    Expr::Opaque(Box::new(Expr::ReturnValue(Box::new(Expr::Other(
                        text.clone(),
                    )))))
                } else {
                    Expr::Other(text.clone())
                }
            },
        }
    }

    /// Rewrites an argument list; each element is in non-tail position.
    pub fn rewrite_exprs(&self, v: &Vec<Expr>) -> (r: Vec<Expr>)
        ensures
            r@.len() == v@.len(),
            forall|i: int| 0 <= i < v@.len() ==> r@[i]@ == rw_expr(self.ident@, v@[i]@, false),
        decreases v,
    {
        let mut out: Vec<Expr> = Vec::new();
        let mut i: usize = 0;
        while i < v.len()
            invariant
                i <= v@.len(),
                out@.len() == i,
                forall|j: int| 0 <= j < i ==> out@[j]@ == rw_expr(self.ident@, v@[j]@, false),
            decreases v@.len() - i,
        {
            out.push(self.rewrite_expr(&v[i], false));
            i = i + 1;
        }
        out
    }

    /// Rewrites the arms of a match that stands where `tail` says.
    pub fn rewrite_arms(&self, v: &Vec<Arm>, tail: bool) -> (r: Vec<Arm>)
        ensures
            r@.len() == v@.len(),
            forall|i: int| 0 <= i < v@.len() ==> r@[i]@ == rw_arm(self.ident@, v@[i]@, tail),
        decreases v,
    {
        let mut out: Vec<Arm> = Vec::new();
        let mut i: usize = 0;
        while i < v.len()
            invariant
                i <= v@.len(),
                out@.len() == i,
                forall|j: int| 0 <= j < i ==> out@[j]@ == rw_arm(self.ident@, v@[j]@, tail),
            decreases v@.len() - i,
        {
            out.push(self.rewrite_arm(&v[i], tail));
            i = i + 1;
        }
        out
    }

    /// Rewrites one match arm: the pattern is kept, the body is rewritten.
    pub fn rewrite_arm(&self, a: &Arm, tail: bool) -> (r: Arm)
        ensures
            r@ == rw_arm(self.ident@, a@, tail),
        decreases a,
    {
        Arm { pat: a.pat.clone(), body: self.rewrite_expr(&a.body, tail) }
    }

    /// Rewrites a block: statements are walked for `return`s; the trailing
    /// expression inherits the block's position; a tail block without one
    /// gains a terminal unit.
    pub fn rewrite_block(&self, b: &Block, tail: bool) -> (r: Block)
        ensures
            r@ == rw_block(self.ident@, b@, tail),
        decreases b,
    {
        broadcast use crate::ast::group_ast_views, group_rw_lemmas;

        let s2 = self.rewrite_stmts(&b.stmts);
        proof {
            assert(view_stmts(s2@) =~= rw_stmts(self.ident@, view_stmts(b.stmts@)));
        }
        let t2: Option<Box<Expr>> = match &b.tail {
            Some(e) => Some(Box::new(self.rewrite_expr(e, tail))),
            None => if tail {
                let u = Expr::Unit;
                proof {
                    assert(u@ == ExprV::Unit);
                }
                let rv = Expr::ReturnValue(Box::new(u));
                proof {
                    assert(rv@ == ExprV::ReturnValue(Box::new(ExprV::Unit)));
                }
                let op = Expr::Opaque(Box::new(rv));
                proof {
                    assert(op@ == returned_unit());
                }
                Some(Box::new(op))
            } else {
                None
            },
        };
        Block { stmts: s2, tail: t2 }
    }

    /// Rewrites one statement (a non-tail position).
    pub fn rewrite_stmt(&self, s: &Stmt) -> (r: Stmt)
        ensures
            r@ == rw_stmt(self.ident@, s@),
        decreases s,
    {
        match s {
            Stmt::Expr(e) => Stmt::Expr(self.rewrite_expr(e, false)),
            Stmt::Other(text) => Stmt::Other(text.clone()),
            Stmt::ActionDecl => Stmt::ActionDecl,
            Stmt::InnerFn { sig, body } => Stmt::InnerFn {
                sig: copy_sig(sig),
                body: copy_block(body),
            },
            Stmt::AccInit(pats) => {
                let p2 = copy_texts(pats);
                proof {
                    assert(view_texts(p2@) =~= view_texts(pats@));
                }
                Stmt::AccInit(p2)
            },
        }
    }

    /// Rewrites the statements of a block, in order.
    pub fn rewrite_stmts(&self, v: &Vec<Stmt>) -> (r: Vec<Stmt>)
        ensures
            r@.len() == v@.len(),
            forall|i: int| 0 <= i < v@.len() ==> r@[i]@ == rw_stmt(self.ident@, v@[i]@),
        decreases v,
    {
        let mut out: Vec<Stmt> = Vec::new();
        let mut i: usize = 0;
        while i < v.len()
            invariant
                i <= v@.len(),
                out@.len() == i,
                forall|j: int| 0 <= j < i ==> out@[j]@ == rw_stmt(self.ident@, v@[j]@),
            decreases v@.len() - i,
        {
            out.push(self.rewrite_stmt(&v[i]));
            i = i + 1;
        }
        out
    }
}

} // verus!
