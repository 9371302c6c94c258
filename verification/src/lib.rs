//! Rewrites a self-recursive function definition into an equivalent
//! iterative form: every self-call in tail position becomes a tagged
//! resumption that a generated driving loop consumes, so tail-recursive
//! code no longer grows the call stack.
//!
//! `ast` holds the expression trees and their ghost models; `rewrite` the
//! tail-position classifier and rewriter; `transform` the signature
//! extractor, the rebuilder and the whole transformation; `action` the
//! two-variant result the generated loop consumes, and that loop itself;
//! `laws` the properties of the rewrite, proved for all inputs.

pub mod action;
pub mod ast;
pub mod laws;
pub mod rewrite;
pub mod transform;
