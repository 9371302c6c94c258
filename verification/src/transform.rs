//! The signature extractor, the function rebuilder, and the whole
//! transformation.
//!
//! The rebuilder assembles a new body: the local two-variant action type,
//! an inner function with the original signature around the rewritten
//! body (the emitter collapses its parameters into one tuple), an
//! accumulator initialized from the parameter patterns, and a trailing
//! driving loop that feeds the inner function until it yields a terminal
//! value. A definition whose body already ends in a driving loop is
//! returned unchanged, which makes the transformation idempotent.

use vstd::prelude::*;
use vstd::string::StringExecFns;

use crate::ast::{Block, BlockV, Expr, ExprV, FnDef, FnDefV, FnSig, ParamV, SigV, Stmt, StmtV};
use crate::ast::{copy_sig, view_texts};
use crate::rewrite::{rw_block, RewriteContext};

verus! {

/// The name of the generated inner function: the original identifier with
/// a fixed suffix.
pub open spec fn inner_ident_v(ident: Seq<char>) -> Seq<char> {
    ident + "_inner"@
}

/// The ordered parameter patterns of a signature.
pub open spec fn pat_texts(inputs: Seq<ParamV>) -> Seq<Seq<char>> {
    Seq::new(inputs.len(), |i: int| inputs[i].pat)
}

/// The ordered parameter types of a signature.
pub open spec fn ty_texts(inputs: Seq<ParamV>) -> Seq<Seq<char>> {
    Seq::new(inputs.len(), |i: int| inputs[i].ty)
}

/// The return type of a signature, as text; unit when absent.
pub open spec fn return_type_text(output: Option<Seq<char>>) -> Seq<char> {
    match output {
        Some(t) => t,
        None => "()"@,
    }
}

/// The body the rebuilder emits around a rewritten body.
pub open spec fn rebuilt_block(sig: SigV, rewritten: BlockV) -> BlockV {
    BlockV {
        stmts: seq![
            StmtV::ActionDecl,
            StmtV::InnerFn { sig, body: rewritten },
            StmtV::AccInit(pat_texts(sig.inputs)),
        ],
        tail: Some(Box::new(ExprV::Opaque(Box::new(ExprV::Driver(inner_ident_v(sig.ident)))))),
    }
}

/// Whether a body is already the rebuilder's output: it ends in the
/// finalized driving loop.
pub open spec fn already_transformed(b: BlockV) -> bool {
    &&& b.tail matches Some(t)
    &&& *t matches ExprV::Opaque(inner)
    &&& *inner is Driver
}

/// The whole transformation of one function definition.
pub open spec fn transformed_def(d: FnDefV) -> FnDefV {
    if already_transformed(d.body) {
        d
    } else {
        FnDefV { sig: d.sig, body: rebuilt_block(d.sig, rw_block(d.sig.ident, d.body, true)) }
    }
}

impl FnSig {
    /// Signature extractor: the ordered parameter patterns and the ordered
    /// parameter types, as two lists.
    pub fn split_inputs(&self) -> (r: (Vec<String>, Vec<String>))
        ensures
            view_texts(r.0@) == pat_texts(self@.inputs),
            view_texts(r.1@) == ty_texts(self@.inputs),
    {
        let mut pats: Vec<String> = Vec::new();
        let mut tys: Vec<String> = Vec::new();
        let mut i: usize = 0;
        while i < self.inputs.len()
            invariant
                i <= self.inputs@.len(),
                pats@.len() == i,
                tys@.len() == i,
                forall|j: int| 0 <= j < i ==> pats@[j]@ == self.inputs@[j].pat@,
                forall|j: int| 0 <= j < i ==> tys@[j]@ == self.inputs@[j].ty@,
            decreases self.inputs@.len() - i,
        {
            pats.push(self.inputs[i].pat.clone());
            tys.push(self.inputs[i].ty.clone());
            i = i + 1;
        }
        proof {
            assert(view_texts(pats@) =~= pat_texts(self@.inputs));
            assert(view_texts(tys@) =~= ty_texts(self@.inputs));
        }
        (pats, tys)
    }

    /// The declared return type, or unit when the signature has none.
    pub fn extract_return_type(&self) -> (r: String)
        ensures
            r@ == return_type_text(self@.output),
    {
        match &self.output {
            Some(t) => t.clone(),
            None => String::from_str("()"),
        }
    }

    /// The name of the inner function generated for this signature.
    pub fn inner_ident(&self) -> (r: String)
        ensures
            r@ == inner_ident_v(self@.ident),
    {
        self.ident.clone().concat("_inner")
    }
}

/// Whether a body already ends in the finalized driving loop.
pub fn body_is_transformed(b: &Block) -> (r: bool)
    ensures
        r == already_transformed(b@),
{
    match &b.tail {
        Some(t) => match &**t {
            Expr::Opaque(inner) => match &**inner {
                Expr::Driver(_) => {
                    proof {
                        reveal_with_fuel(crate::ast::view_expr, 3);
                        assert(b@.tail matches Some(bt) && *bt == crate::ast::view_expr(**t));
                        assert(crate::ast::view_expr(**t) matches ExprV::Opaque(vi) && *vi
                            == crate::ast::view_expr(**inner));
                        assert(crate::ast::view_expr(**inner) is Driver);
                    }
                    true
                },
                _ => {
                    proof {
                        reveal_with_fuel(crate::ast::view_expr, 3);
                        assert(!(crate::ast::view_expr(**inner) is Driver));
                    }
                    false
                },
            },
            _ => {
                proof {
                    reveal_with_fuel(crate::ast::view_expr, 3);
                    assert(!(crate::ast::view_expr(**t) is Opaque));
                }
                false
            },
        },
        None => false,
    }
}

/// Rebuilds the function around a rewritten body.
fn rebuild(sig: FnSig, rewritten: Block) -> (r: Block)
    ensures
        r@ == rebuilt_block(sig@, rewritten@),
{
    let inner_name = sig.inner_ident();
    let (pats, _tys) = sig.split_inputs();
    let ghost sig_v = sig@;
    let ghost rewritten_v = rewritten@;
    let ghost pats_v = view_texts(pats@);
    let mut stmts: Vec<Stmt> = Vec::new();
    stmts.push(Stmt::ActionDecl);
    stmts.push(Stmt::InnerFn { sig, body: rewritten });
    stmts.push(Stmt::AccInit(pats));
    let tail = Expr::Opaque(Box::new(Expr::Driver(inner_name)));
    proof {
        broadcast use crate::ast::group_ast_views;

        reveal_with_fuel(crate::ast::view_expr, 3);
        assert(stmts@.len() == 3);
        assert(crate::ast::view_stmt(stmts@[0]) == StmtV::ActionDecl);
        assert(crate::ast::view_stmt(stmts@[1]) == (StmtV::InnerFn {
            sig: sig_v,
            body: rewritten_v,
        }));
        assert(crate::ast::view_stmt(stmts@[2]) == StmtV::AccInit(pats_v));
        assert(crate::ast::view_stmts(stmts@) =~= rebuilt_block(sig_v, rewritten_v).stmts);
        assert(crate::ast::view_expr(tail) == ExprV::Opaque(Box::new(ExprV::Driver(
            inner_ident_v(sig_v.ident),
        ))));
    }
    Block { stmts, tail: Some(Box::new(tail)) }
}

/// Transforms one function definition: same signature, and a body that
/// drives the rewritten computation in a loop. A definition that is
/// already transformed comes back unchanged.
pub fn transform(f: FnDef) -> (r: FnDef)
    ensures
        r@ == transformed_def(f@),
{
    if body_is_transformed(&f.body) {
        f
    } else {
        let ctx = RewriteContext::new(f.sig.ident.clone());
        let rewritten = ctx.rewrite_block(&f.body, true);
        let body = rebuild(copy_sig(&f.sig), rewritten);
        FnDef { sig: f.sig, body }
    }
}

} // verus!
